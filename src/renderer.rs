use vstd::prelude::*;

use crate::command::{frame_prologue, Command, CommandBufferState, CommandRecorder};
use crate::error::RendererError;
use crate::frame::{
    spec_begin_frame, spec_end_frame, spec_fence_signaled, spec_image_acquired, spec_presented,
    spec_request_resize, spec_submitted, spec_swapchain_recreated, AcquireResult, FrameAction, FrameModel,
    FrameSync, Phase, PresentResult,
};
use crate::swapchain::Extent2D;

verus! {

/// The renderer's per-tick core: the frame synchronizer together with the command list
/// of the frame being recorded. The host performs the returned actions and replays
/// `commands()` into the slot's command buffer when told to submit.
pub struct RendererCore {
    frame: FrameSync,
    recorder: CommandRecorder,
    vertex_buffer: u64,
}

impl RendererCore {
    pub closed spec fn frame_model(&self) -> FrameModel {
        self.frame@
    }

    pub closed spec fn recorded(&self) -> Seq<Command> {
        self.recorder@.commands
    }

    pub closed spec fn vertex_buffer_spec(&self) -> u64 {
        self.vertex_buffer
    }

    /// The recorder is open exactly while the frame is in its recording phase.
    pub closed spec fn wf(&self) -> bool {
        &&& self.frame.wf()
        &&& (self.frame@.phase is Recording) == (self.recorder@.state == CommandBufferState::Recording)
        &&& self.recorder@.state != CommandBufferState::Pending
    }

    pub fn new(image_count: u32, extent: Extent2D, vertex_buffer: u64) -> (r: RendererCore)
        requires
            image_count >= 1,
        ensures
            r.wf(),
            r.frame_model().in_flight == Seq::new(image_count as nat, |i: int| false),
            r.frame_model().phase == Phase::Idle,
            r.frame_model().slot == 0,
            r.frame_model().extent == extent,
            r.frame_model().requested == extent,
            !r.frame_model().recreate_pending,
            r.frame_model().generation == 0,
            r.vertex_buffer_spec() == vertex_buffer,
    {
        RendererCore {
            frame: FrameSync::new(image_count, extent),
            recorder: CommandRecorder::new(),
            vertex_buffer,
        }
    }

    pub fn begin_frame(&mut self) -> (r: FrameAction)
        requires
            old(self).wf(),
        ensures
            final(self).wf(),
            (final(self).frame_model(), r) == spec_begin_frame(old(self).frame_model()),
            final(self).recorded() == old(self).recorded(),
    {
        self.frame.begin_frame()
    }

    pub fn fence_signaled(&mut self) -> (r: FrameAction)
        requires
            old(self).wf(),
        ensures
            final(self).wf(),
            (final(self).frame_model(), r) == spec_fence_signaled(old(self).frame_model()),
            final(self).recorded() == old(self).recorded(),
    {
        self.frame.fence_signaled()
    }

    pub fn swapchain_recreated(&mut self, image_count: u32, extent: Extent2D) -> (r: FrameAction)
        requires
            old(self).wf(),
            image_count >= 1,
        ensures
            final(self).wf(),
            (final(self).frame_model(), r) == spec_swapchain_recreated(
                old(self).frame_model(),
                image_count,
                extent,
            ),
            final(self).recorded() == old(self).recorded(),
    {
        self.frame.swapchain_recreated(image_count, extent)
    }

    /// Reports the acquire; when it lets the frame record, the command list is begun with
    /// the frame's prologue against the acquired image and the current extent.
    pub fn image_acquired(&mut self, result: AcquireResult) -> (r: FrameAction)
        requires
            old(self).wf(),
        ensures
            final(self).wf(),
            (final(self).frame_model(), r) == spec_image_acquired(old(self).frame_model(), result),
            match r {
                FrameAction::Record { image, extent, .. } => final(self).recorded() == frame_prologue(
                    image,
                    extent,
                    old(self).vertex_buffer_spec(),
                ),
                _ => final(self).recorded() == old(self).recorded(),
            },
    {
        let a = self.frame.image_acquired(result);
        match a {
            FrameAction::Record { image, extent, .. } => {
                let _ = self.recorder.begin_frame(image, extent, self.vertex_buffer);
            },
            _ => {},
        }
        a
    }

    /// Records a draw of `count` vertices starting at `offset` into the current frame;
    /// refused outside the recording phase.
    pub fn draw_vertices(&mut self, count: u32, offset: u32) -> (r: Result<(), RendererError>)
        requires
            old(self).wf(),
        ensures
            final(self).wf(),
            final(self).frame_model() == old(self).frame_model(),
            old(self).frame_model().phase is Recording ==> r is Ok && final(self).recorded() == old(
                self,
            ).recorded().push(Command::Draw { vertex_count: count, first_vertex: offset }),
            !(old(self).frame_model().phase is Recording) ==> r == Err::<(), RendererError>(
                RendererError::InvalidFrameState,
            ) && final(self).recorded() == old(self).recorded(),
    {
        self.recorder.draw_vertices(count, offset)
    }

    /// Closes the frame's command list (ending the render pass) and hands it to
    /// submission.
    pub fn end_frame(&mut self) -> (r: FrameAction)
        requires
            old(self).wf(),
        ensures
            final(self).wf(),
            (final(self).frame_model(), r) == spec_end_frame(old(self).frame_model()),
            old(self).frame_model().phase is Recording ==> final(self).recorded() == old(
                self,
            ).recorded().push(Command::EndRenderPass),
            !(old(self).frame_model().phase is Recording) ==> final(self).recorded() == old(
                self,
            ).recorded(),
    {
        let _ = self.recorder.end_frame();
        self.frame.end_frame()
    }

    pub fn submitted(&mut self) -> (r: FrameAction)
        requires
            old(self).wf(),
        ensures
            final(self).wf(),
            (final(self).frame_model(), r) == spec_submitted(old(self).frame_model()),
            final(self).recorded() == old(self).recorded(),
    {
        self.frame.submitted()
    }

    pub fn presented(&mut self, result: PresentResult) -> (r: FrameAction)
        requires
            old(self).wf(),
        ensures
            final(self).wf(),
            (final(self).frame_model(), r) == spec_presented(old(self).frame_model(), result),
            final(self).recorded() == old(self).recorded(),
    {
        self.frame.presented(result)
    }

    pub fn update_resolution(&mut self, width: u32, height: u32)
        requires
            old(self).wf(),
        ensures
            final(self).wf(),
            final(self).frame_model() == spec_request_resize(old(self).frame_model(), width, height),
            final(self).recorded() == old(self).recorded(),
    {
        self.frame.update_resolution(width, height)
    }

    /// Uses `vertex_buffer` for the frames recorded from now on.
    pub fn load_vertices(&mut self, vertex_buffer: u64)
        requires
            old(self).wf(),
        ensures
            final(self).wf(),
            final(self).frame_model() == old(self).frame_model(),
            final(self).recorded() == old(self).recorded(),
            final(self).vertex_buffer_spec() == vertex_buffer,
    {
        self.vertex_buffer = vertex_buffer;
    }

    /// The command list of the current frame.
    pub fn commands(&self) -> (r: &Vec<Command>)
        ensures
            r@ == self.recorded(),
    {
        self.recorder.commands()
    }

    pub fn frame(&self) -> (r: &FrameSync)
        ensures
            r@ == self.frame_model(),
    {
        &self.frame
    }
}

} // verus!
