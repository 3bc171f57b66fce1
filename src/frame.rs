use vstd::prelude::*;

use crate::error::RendererError;
use crate::swapchain::Extent2D;

verus! {

/// Where the current tick stands in the acquire, record, submit, present cycle.
#[derive(Clone, Copy, Debug, PartialEq, Eq, Structural)]
pub enum Phase {
    Idle,
    /// Waiting on the current slot's fence from its previous use.
    WaitingFence,
    Acquiring,
    /// Recording draw commands into the acquired image.
    Recording(u32),
    Submitted(u32),
    Presenting(u32),
    /// Waiting for the host to rebuild the swapchain.
    Recreating,
    /// The device was lost or the swapchain could not be rebuilt: nothing more runs.
    Lost,
}

/// What the presentation engine answered to an acquire.
#[derive(Clone, Copy, Debug, PartialEq, Eq, Structural)]
pub enum AcquireResult {
    Acquired(u32),
    Suboptimal(u32),
    OutOfDate,
    DeviceLost,
}

/// What the presentation engine answered to a present.
#[derive(Clone, Copy, Debug, PartialEq, Eq, Structural)]
pub enum PresentResult {
    Presented,
    Suboptimal,
    OutOfDate,
    DeviceLost,
}

/// The next thing the host must do on behalf of the frame loop.
#[derive(Clone, Copy, Debug, PartialEq, Eq, Structural)]
pub enum FrameAction {
    /// Block until the slot's fence from its previous submission has signaled.
    WaitFence(usize),
    /// Wait for every slot's fence, then destroy and rebuild the swapchain and its
    /// dependent resources, asking the surface for this extent.
    Recreate(Extent2D),
    /// Acquire the next image, signaling the slot's acquire semaphore.
    Acquire(usize),
    /// Record this tick's commands against `image` of swapchain `generation`.
    Record { slot: usize, image: u32, extent: Extent2D, generation: u64 },
    /// Submit the slot's command buffer: wait on the acquire semaphore, signal the
    /// render-complete semaphore and the slot's fence.
    Submit { slot: usize, image: u32 },
    /// Present `image`, waiting on the slot's render-complete semaphore.
    Present { slot: usize, image: u32 },
    /// The tick is finished.
    Complete,
    Fail(RendererError),
}

/// The frame synchronizer's state as a mathematical value.
pub struct FrameModel {
    /// Per frame slot: a submission whose fence has not been seen to signal.
    pub in_flight: Seq<bool>,
    pub slot: nat,
    pub phase: Phase,
    /// The swapchain was already rebuilt once during this tick.
    pub retried: bool,
    /// The rebuild in progress finishes the tick instead of resuming it.
    pub ends_tick: bool,
    pub extent: Extent2D,
    /// The size the next rebuild asks for.
    pub requested: Extent2D,
    pub recreate_pending: bool,
    pub generation: u64,
}

pub open spec fn in_flight_count(m: FrameModel) -> nat {
    m.in_flight.filter(|b: bool| b).len()
}

pub open spec fn next_generation(g: u64) -> u64 {
    if g == u64::MAX {
        0
    } else {
        (g + 1) as u64
    }
}

pub open spec fn model_wf(m: FrameModel) -> bool {
    &&& m.in_flight.len() >= 1
    &&& m.in_flight.len() <= u32::MAX
    &&& m.slot < m.in_flight.len()
    &&& match m.phase {
        Phase::WaitingFence => true,
        Phase::Acquiring => !m.in_flight[m.slot as int],
        Phase::Recording(i) => i < m.in_flight.len() && !m.in_flight[m.slot as int],
        Phase::Submitted(i) => i < m.in_flight.len() && m.in_flight[m.slot as int],
        Phase::Presenting(i) => i < m.in_flight.len() && m.in_flight[m.slot as int],
        _ => true,
    }
}

pub open spec fn fail_state(m: FrameModel) -> (FrameModel, FrameAction) {
    match m.phase {
        Phase::Lost => (m, FrameAction::Fail(RendererError::DeviceLost)),
        _ => (m, FrameAction::Fail(RendererError::InvalidFrameState)),
    }
}

pub open spec fn lost(m: FrameModel, e: RendererError) -> (FrameModel, FrameAction) {
    (FrameModel { phase: Phase::Lost, ..m }, FrameAction::Fail(e))
}

pub open spec fn spec_begin_frame(m: FrameModel) -> (FrameModel, FrameAction) {
    match m.phase {
        Phase::Idle => (
            FrameModel { phase: Phase::WaitingFence, retried: false, ..m },
            FrameAction::WaitFence(m.slot as usize),
        ),
        _ => fail_state(m),
    }
}

pub open spec fn spec_fence_signaled(m: FrameModel) -> (FrameModel, FrameAction) {
    match m.phase {
        Phase::WaitingFence => {
            let in_flight = m.in_flight.update(m.slot as int, false);
            if m.recreate_pending {
                (
                    FrameModel { in_flight, phase: Phase::Recreating, ends_tick: false, ..m },
                    FrameAction::Recreate(m.requested),
                )
            } else {
                (
                    FrameModel { in_flight, phase: Phase::Acquiring, ..m },
                    FrameAction::Acquire(m.slot as usize),
                )
            }
        },
        _ => fail_state(m),
    }
}

pub open spec fn spec_swapchain_recreated(m: FrameModel, image_count: u32, extent: Extent2D) -> (
    FrameModel,
    FrameAction,
) {
    match m.phase {
        Phase::Recreating => {
            let base = FrameModel {
                in_flight: Seq::new(image_count as nat, |i: int| false),
                slot: 0,
                extent,
                recreate_pending: false,
                generation: next_generation(m.generation),
                ..m
            };
            if m.ends_tick {
                (FrameModel { phase: Phase::Idle, ..base }, FrameAction::Complete)
            } else {
                (FrameModel { phase: Phase::Acquiring, ..base }, FrameAction::Acquire(0))
            }
        },
        _ => fail_state(m),
    }
}

pub open spec fn record_action(m: FrameModel, image: u32) -> FrameAction {
    FrameAction::Record { slot: m.slot as usize, image, extent: m.extent, generation: m.generation }
}

pub open spec fn spec_image_acquired(m: FrameModel, result: AcquireResult) -> (FrameModel, FrameAction) {
    match m.phase {
        Phase::Acquiring => match result {
            AcquireResult::Acquired(i) => if i < m.in_flight.len() {
                (FrameModel { phase: Phase::Recording(i), ..m }, record_action(m, i))
            } else {
                lost(m, RendererError::InvalidImageIndex)
            },
            AcquireResult::Suboptimal(i) => if i < m.in_flight.len() {
                (
                    FrameModel { phase: Phase::Recording(i), recreate_pending: true, ..m },
                    record_action(m, i),
                )
            } else {
                lost(m, RendererError::InvalidImageIndex)
            },
            AcquireResult::OutOfDate => if m.retried {
                lost(m, RendererError::SwapchainOutOfDate)
            } else {
                (
                    FrameModel { phase: Phase::Recreating, retried: true, ends_tick: false, ..m },
                    FrameAction::Recreate(m.requested),
                )
            },
            AcquireResult::DeviceLost => lost(m, RendererError::DeviceLost),
        },
        _ => fail_state(m),
    }
}

pub open spec fn spec_end_frame(m: FrameModel) -> (FrameModel, FrameAction) {
    match m.phase {
        Phase::Recording(i) => (
            FrameModel {
                in_flight: m.in_flight.update(m.slot as int, true),
                phase: Phase::Submitted(i),
                ..m
            },
            FrameAction::Submit { slot: m.slot as usize, image: i },
        ),
        _ => fail_state(m),
    }
}

pub open spec fn spec_submitted(m: FrameModel) -> (FrameModel, FrameAction) {
    match m.phase {
        Phase::Submitted(i) => (
            FrameModel { phase: Phase::Presenting(i), ..m },
            FrameAction::Present { slot: m.slot as usize, image: i },
        ),
        _ => fail_state(m),
    }
}

pub open spec fn next_slot(m: FrameModel) -> nat {
    ((m.slot + 1) % m.in_flight.len()) as nat
}

pub open spec fn spec_presented(m: FrameModel, result: PresentResult) -> (FrameModel, FrameAction) {
    match m.phase {
        Phase::Presenting(_) => match result {
            PresentResult::Presented => (
                FrameModel { phase: Phase::Idle, slot: next_slot(m), ..m },
                FrameAction::Complete,
            ),
            PresentResult::DeviceLost => lost(m, RendererError::DeviceLost),
            _ => (
                FrameModel { phase: Phase::Recreating, slot: next_slot(m), ends_tick: true, ..m },
                FrameAction::Recreate(m.requested),
            ),
        },
        _ => fail_state(m),
    }
}

pub open spec fn spec_request_resize(m: FrameModel, width: u32, height: u32) -> FrameModel {
    FrameModel { requested: Extent2D { width, height }, recreate_pending: true, ..m }
}

/// However the device's progress interleaves with the host's, the host never holds more
/// unsignaled fences than there are frame slots.
pub proof fn lemma_in_flight_bounded(m: FrameModel)
    requires
        model_wf(m),
    ensures
        in_flight_count(m) <= m.in_flight.len(),
{
    m.in_flight.lemma_filter_len(|b: bool| b);
}

/// Every transition keeps the model well-formed, so the bound on unsignaled fences holds
/// in every state the frame loop can reach, whatever the device and the presentation
/// engine answer.
pub proof fn lemma_transitions_preserve_wf(
    m: FrameModel,
    acquire: AcquireResult,
    present: PresentResult,
    image_count: u32,
    extent: Extent2D,
    width: u32,
    height: u32,
)
    requires
        model_wf(m),
        image_count >= 1,
    ensures
        model_wf(spec_begin_frame(m).0),
        model_wf(spec_fence_signaled(m).0),
        model_wf(spec_swapchain_recreated(m, image_count, extent).0),
        model_wf(spec_image_acquired(m, acquire).0),
        model_wf(spec_end_frame(m).0),
        model_wf(spec_submitted(m).0),
        model_wf(spec_presented(m, present).0),
        model_wf(spec_request_resize(m, width, height)),
{
}

/// An image is acquired for a slot only after that slot's fence has signaled, and a
/// slot's buffer is submitted only while its fence is not in flight.
pub proof fn lemma_fence_gates_slot_reuse(m: FrameModel, image_count: u32, extent: Extent2D)
    requires
        model_wf(m),
        image_count >= 1,
    ensures
        spec_fence_signaled(m).1 == FrameAction::Acquire(m.slot as usize) ==> !spec_fence_signaled(
            m,
        ).0.in_flight[m.slot as int],
        spec_swapchain_recreated(m, image_count, extent).1 == FrameAction::Acquire(0) ==> !spec_swapchain_recreated(
            m,
            image_count,
            extent,
        ).0.in_flight[0],
        (spec_end_frame(m).1 is Submit) ==> !m.in_flight[m.slot as int],
{
}

/// Every recording targets an image of the current swapchain generation, inside its
/// image count and at its extent: nothing recorded after a rebuild refers to an image
/// of an earlier generation.
pub proof fn lemma_record_targets_current_swapchain(m: FrameModel, result: AcquireResult)
    requires
        model_wf(m),
    ensures
        match spec_image_acquired(m, result).1 {
            FrameAction::Record { slot, image, extent, generation } => {
                &&& generation == m.generation
                &&& image < m.in_flight.len()
                &&& extent == m.extent
                &&& slot == m.slot
            },
            _ => true,
        },
{
}

/// A resize requested between the start and the end of a tick lets that tick finish
/// unchanged; the next tick rebuilds the swapchain at the requested size before it
/// acquires, and then records against the new extent and the new generation.
pub proof fn lemma_resize_applies_next_tick(
    m: FrameModel,
    image: u32,
    width: u32,
    height: u32,
    image_count: u32,
    extent: Extent2D,
    next_image: u32,
)
    requires
        model_wf(m),
        m.phase == Phase::Recording(image),
        image_count >= 1,
        next_image < image_count,
    ensures
        ({
            let m1 = spec_request_resize(m, width, height);
            let (m2, a2) = spec_end_frame(m1);
            let (m3, a3) = spec_submitted(m2);
            let (m4, a4) = spec_presented(m3, PresentResult::Presented);
            let (m5, a5) = spec_begin_frame(m4);
            let (m6, a6) = spec_fence_signaled(m5);
            let (m7, a7) = spec_swapchain_recreated(m6, image_count, extent);
            let (m8, a8) = spec_image_acquired(m7, AcquireResult::Acquired(next_image));
            &&& a2 == FrameAction::Submit { slot: m.slot as usize, image }
            &&& a3 == FrameAction::Present { slot: m.slot as usize, image }
            &&& a4 == FrameAction::Complete
            &&& a6 == FrameAction::Recreate(Extent2D { width, height })
            &&& a7 == FrameAction::Acquire(0)
            &&& a8 == FrameAction::Record {
                slot: 0,
                image: next_image,
                extent,
                generation: next_generation(m.generation),
            }
        }),
{
}

/// An out-of-date answer to a present rebuilds the swapchain and still completes the
/// tick: the caller sees no error.
pub proof fn lemma_present_out_of_date_completes_tick(m: FrameModel, image_count: u32, extent: Extent2D)
    requires
        model_wf(m),
        m.phase is Presenting,
        image_count >= 1,
    ensures
        ({
            let (m1, a1) = spec_presented(m, PresentResult::OutOfDate);
            let (m2, a2) = spec_swapchain_recreated(m1, image_count, extent);
            &&& a1 == FrameAction::Recreate(m.requested)
            &&& a2 == FrameAction::Complete
            &&& m2.phase == Phase::Idle
            &&& m2.extent == extent
        }),
{
}

/// An out-of-date answer to an acquire is retried once after a rebuild; a second one
/// in the same tick is fatal.
pub proof fn lemma_acquire_retried_once(m: FrameModel, image_count: u32, extent: Extent2D)
    requires
        model_wf(m),
        m.phase == Phase::WaitingFence,
        !m.recreate_pending,
        !m.retried,
        image_count >= 1,
    ensures
        ({
            let (m1, a1) = spec_fence_signaled(m);
            let (m2, a2) = spec_image_acquired(m1, AcquireResult::OutOfDate);
            let (m3, a3) = spec_swapchain_recreated(m2, image_count, extent);
            let (m4, a4) = spec_image_acquired(m3, AcquireResult::OutOfDate);
            &&& a1 == FrameAction::Acquire(m.slot as usize)
            &&& a2 == FrameAction::Recreate(m.requested)
            &&& a3 == FrameAction::Acquire(0)
            &&& a4 == FrameAction::Fail(RendererError::SwapchainOutOfDate)
            &&& m4.phase == Phase::Lost
        }),
{
}

/// Drives the per-frame acquire, record, submit, present protocol over a ring of
/// frame slots, one per swapchain image, each with its own fence.
///
/// The host performs every returned `FrameAction` and reports its outcome through the
/// matching method; the synchronizer decides what comes next.
pub struct FrameSync {
    in_flight: Vec<bool>,
    slot: usize,
    phase: Phase,
    retried: bool,
    ends_tick: bool,
    extent: Extent2D,
    requested: Extent2D,
    recreate_pending: bool,
    generation: u64,
}

impl View for FrameSync {
    type V = FrameModel;

    closed spec fn view(&self) -> FrameModel {
        FrameModel {
            in_flight: self.in_flight@,
            slot: self.slot as nat,
            phase: self.phase,
            retried: self.retried,
            ends_tick: self.ends_tick,
            extent: self.extent,
            requested: self.requested,
            recreate_pending: self.recreate_pending,
            generation: self.generation,
        }
    }
}

fn all_signaled(n: u32) -> (r: Vec<bool>)
    ensures
        r@ == Seq::new(n as nat, |i: int| false),
{
    let mut v: Vec<bool> = Vec::new();
    let mut i: u32 = 0;
    while i < n
        invariant
            i <= n,
            v@ == Seq::new(i as nat, |j: int| false),
        decreases n - i,
    {
        v.push(false);
        i += 1;
        assert(v@ =~= Seq::new(i as nat, |j: int| false));
    }
    v
}

impl FrameSync {
    pub open spec fn wf(&self) -> bool {
        model_wf(self@)
    }

    /// A synchronizer for a freshly built swapchain of `image_count` images: every slot
    /// idle, no submission in flight.
    pub fn new(image_count: u32, extent: Extent2D) -> (r: FrameSync)
        requires
            image_count >= 1,
        ensures
            r.wf(),
            r@.in_flight == Seq::new(image_count as nat, |i: int| false),
            r@.slot == 0,
            r@.phase == Phase::Idle,
            r@.extent == extent,
            r@.requested == extent,
            !r@.recreate_pending,
            r@.generation == 0,
    {
        FrameSync {
            in_flight: all_signaled(image_count),
            slot: 0,
            phase: Phase::Idle,
            retried: false,
            ends_tick: false,
            extent,
            requested: extent,
            recreate_pending: false,
            generation: 0,
        }
    }

    fn fail(&self) -> (r: FrameAction)
        ensures
            r == fail_state(self@).1,
    {
        match self.phase {
            Phase::Lost => FrameAction::Fail(RendererError::DeviceLost),
            _ => FrameAction::Fail(RendererError::InvalidFrameState),
        }
    }

    fn lose(&mut self, e: RendererError) -> (r: FrameAction)
        ensures
            (final(self)@, r) == lost(old(self)@, e),
    {
        self.phase = Phase::Lost;
        FrameAction::Fail(e)
    }

    /// Starts a tick: the first step is always to wait on the current slot's fence.
    pub fn begin_frame(&mut self) -> (r: FrameAction)
        requires
            old(self).wf(),
        ensures
            final(self).wf(),
            (final(self)@, r) == spec_begin_frame(old(self)@),
    {
        match self.phase {
            Phase::Idle => {
                self.phase = Phase::WaitingFence;
                self.retried = false;
                FrameAction::WaitFence(self.slot)
            },
            _ => self.fail(),
        }
    }

    /// The current slot's fence has signaled: its previous submission is finished.
    pub fn fence_signaled(&mut self) -> (r: FrameAction)
        requires
            old(self).wf(),
        ensures
            final(self).wf(),
            (final(self)@, r) == spec_fence_signaled(old(self)@),
    {
        match self.phase {
            Phase::WaitingFence => {
                self.in_flight.set(self.slot, false);
                if self.recreate_pending {
                    self.phase = Phase::Recreating;
                    self.ends_tick = false;
                    FrameAction::Recreate(self.requested)
                } else {
                    self.phase = Phase::Acquiring;
                    FrameAction::Acquire(self.slot)
                }
            },
            _ => self.fail(),
        }
    }

    /// The host waited for every slot's fence and rebuilt the swapchain with
    /// `image_count` images of size `extent`.
    pub fn swapchain_recreated(&mut self, image_count: u32, extent: Extent2D) -> (r: FrameAction)
        requires
            old(self).wf(),
            image_count >= 1,
        ensures
            final(self).wf(),
            (final(self)@, r) == spec_swapchain_recreated(old(self)@, image_count, extent),
    {
        match self.phase {
            Phase::Recreating => {
                self.in_flight = all_signaled(image_count);
                self.slot = 0;
                self.extent = extent;
                self.recreate_pending = false;
                self.generation = if self.generation == u64::MAX {
                    0
                } else {
                    self.generation + 1
                };
                if self.ends_tick {
                    self.phase = Phase::Idle;
                    FrameAction::Complete
                } else {
                    self.phase = Phase::Acquiring;
                    FrameAction::Acquire(0)
                }
            },
            _ => self.fail(),
        }
    }

    /// Reports the outcome of the acquire. An out-of-date swapchain is rebuilt and the
    /// acquire retried once; a second out-of-date answer, or a lost device, is fatal.
    pub fn image_acquired(&mut self, result: AcquireResult) -> (r: FrameAction)
        requires
            old(self).wf(),
        ensures
            final(self).wf(),
            (final(self)@, r) == spec_image_acquired(old(self)@, result),
    {
        match self.phase {
            Phase::Acquiring => match result {
                AcquireResult::Acquired(i) => {
                    if (i as usize) < self.in_flight.len() {
                        self.phase = Phase::Recording(i);
                        FrameAction::Record {
                            slot: self.slot,
                            image: i,
                            extent: self.extent,
                            generation: self.generation,
                        }
                    } else {
                        self.lose(RendererError::InvalidImageIndex)
                    }
                },
                AcquireResult::Suboptimal(i) => {
                    if (i as usize) < self.in_flight.len() {
                        self.phase = Phase::Recording(i);
                        self.recreate_pending = true;
                        FrameAction::Record {
                            slot: self.slot,
                            image: i,
                            extent: self.extent,
                            generation: self.generation,
                        }
                    } else {
                        self.lose(RendererError::InvalidImageIndex)
                    }
                },
                AcquireResult::OutOfDate => {
                    if self.retried {
                        self.lose(RendererError::SwapchainOutOfDate)
                    } else {
                        self.phase = Phase::Recreating;
                        self.retried = true;
                        self.ends_tick = false;
                        FrameAction::Recreate(self.requested)
                    }
                },
                AcquireResult::DeviceLost => self.lose(RendererError::DeviceLost),
            },
            _ => self.fail(),
        }
    }

    /// Recording is finished: the slot's buffer is submitted and its fence is now
    /// in flight.
    pub fn end_frame(&mut self) -> (r: FrameAction)
        requires
            old(self).wf(),
        ensures
            final(self).wf(),
            (final(self)@, r) == spec_end_frame(old(self)@),
    {
        match self.phase {
            Phase::Recording(i) => {
                self.in_flight.set(self.slot, true);
                self.phase = Phase::Submitted(i);
                FrameAction::Submit { slot: self.slot, image: i }
            },
            _ => self.fail(),
        }
    }

    /// The submission was enqueued; the image can be presented.
    pub fn submitted(&mut self) -> (r: FrameAction)
        requires
            old(self).wf(),
        ensures
            final(self).wf(),
            (final(self)@, r) == spec_submitted(old(self)@),
    {
        match self.phase {
            Phase::Submitted(i) => {
                self.phase = Phase::Presenting(i);
                FrameAction::Present { slot: self.slot, image: i }
            },
            _ => self.fail(),
        }
    }

    /// Reports the outcome of the present. The tick's work is complete either way; an
    /// out-of-date or suboptimal answer rebuilds the swapchain before the tick ends.
    pub fn presented(&mut self, result: PresentResult) -> (r: FrameAction)
        requires
            old(self).wf(),
        ensures
            final(self).wf(),
            (final(self)@, r) == spec_presented(old(self)@, result),
    {
        match self.phase {
            Phase::Presenting(_) => match result {
                PresentResult::Presented => {
                    self.slot = (self.slot + 1) % self.in_flight.len();
                    self.phase = Phase::Idle;
                    FrameAction::Complete
                },
                PresentResult::DeviceLost => self.lose(RendererError::DeviceLost),
                _ => {
                    self.slot = (self.slot + 1) % self.in_flight.len();
                    self.phase = Phase::Recreating;
                    self.ends_tick = true;
                    FrameAction::Recreate(self.requested)
                },
            },
            _ => self.fail(),
        }
    }

    /// Asks for the swapchain to be rebuilt at a new size at the start of the next tick.
    pub fn update_resolution(&mut self, width: u32, height: u32)
        requires
            old(self).wf(),
        ensures
            final(self).wf(),
            final(self)@ == spec_request_resize(old(self)@, width, height),
    {
        self.requested = Extent2D { width, height };
        self.recreate_pending = true;
    }

    pub fn phase(&self) -> (r: Phase)
        ensures
            r == self@.phase,
    {
        self.phase
    }

    /// Number of frame slots, one per swapchain image.
    pub fn slot_count(&self) -> (r: usize)
        ensures
            r == self@.in_flight.len(),
    {
        self.in_flight.len()
    }

    pub fn current_slot(&self) -> (r: usize)
        ensures
            r == self@.slot,
    {
        self.slot
    }

    pub fn extent(&self) -> (r: Extent2D)
        ensures
            r == self@.extent,
    {
        self.extent
    }

    pub fn generation(&self) -> (r: u64)
        ensures
            r == self@.generation,
    {
        self.generation
    }

    /// Number of slots whose last submission has not been seen to finish.
    pub fn in_flight_count(&self) -> (r: usize)
        requires
            self.wf(),
        ensures
            r == in_flight_count(self@),
            r <= self@.in_flight.len(),
    {
        let mut n: usize = 0;
        let mut i: usize = 0;
        while i < self.in_flight.len()
            invariant
                i <= self.in_flight@.len(),
                n == self.in_flight@.subrange(0, i as int).filter(|b: bool| b).len(),
                n <= i,
            decreases self.in_flight@.len() - i,
        {
            proof {
                let s = self.in_flight@;
                assert(s.subrange(0, i + 1).drop_last() =~= s.subrange(0, i as int));
                reveal(Seq::filter);
                s.subrange(0, i + 1).lemma_filter_len(|b: bool| b);
            }
            if self.in_flight[i] {
                n += 1;
            }
            i += 1;
        }
        assert(self.in_flight@.subrange(0, i as int) =~= self.in_flight@);
        proof {
            lemma_in_flight_bounded(self@);
        }
        n
    }
}

} // verus!
