use vstd::prelude::*;

use crate::error::RendererError;
use crate::swapchain::Extent2D;
use crate::transfer::BufferCopy;

verus! {

/// Lifecycle of a command buffer.
#[derive(Clone, Copy, Debug, PartialEq, Eq, Structural)]
pub enum CommandBufferState {
    Initial,
    Recording,
    Executable,
    /// Submitted; the device may still be executing it.
    Pending,
}

/// One command recorded into a command buffer.
#[derive(Clone, Copy, Debug, PartialEq, Eq, Structural)]
pub enum Command {
    /// Begin the render pass on the framebuffer of swapchain image `image`, clearing it.
    BeginRenderPass { image: u32, extent: Extent2D },
    BindPipeline,
    SetViewport(Extent2D),
    SetScissor(Extent2D),
    BindVertexBuffer(u64),
    Draw { vertex_count: u32, first_vertex: u32 },
    EndRenderPass,
    CopyBuffer { src: u64, dst: u64, region: BufferCopy },
}

/// A command buffer's state and the commands recorded since it was last begun.
pub struct CommandRecorder {
    state: CommandBufferState,
    commands: Vec<Command>,
}

pub struct RecorderModel {
    pub state: CommandBufferState,
    pub commands: Seq<Command>,
}

impl View for CommandRecorder {
    type V = RecorderModel;

    closed spec fn view(&self) -> RecorderModel {
        RecorderModel { state: self.state, commands: self.commands@ }
    }
}

/// The commands of one frame: begin the render pass on the acquired image, bind the
/// pipeline, set viewport and scissor to the current extent, bind the vertex buffer.
pub open spec fn frame_prologue(image: u32, extent: Extent2D, vertex_buffer: u64) -> Seq<Command> {
    seq![
        Command::BeginRenderPass { image, extent },
        Command::BindPipeline,
        Command::SetViewport(extent),
        Command::SetScissor(extent),
        Command::BindVertexBuffer(vertex_buffer),
    ]
}

impl CommandRecorder {
    pub fn new() -> (r: CommandRecorder)
        ensures
            r@.state == CommandBufferState::Initial,
            r@.commands == Seq::<Command>::empty(),
    {
        CommandRecorder { state: CommandBufferState::Initial, commands: Vec::new() }
    }

    pub fn state(&self) -> (r: CommandBufferState)
        ensures
            r == self@.state,
    {
        self.state
    }

    pub fn commands(&self) -> (r: &Vec<Command>)
        ensures
            r@ == self@.commands,
    {
        &self.commands
    }

    /// Resets the buffer and opens it for recording; refused while the device may still
    /// be executing it.
    pub fn begin(&mut self) -> (r: Result<(), RendererError>)
        ensures
            old(self)@.state == CommandBufferState::Pending ==> r == Err::<(), RendererError>(
                RendererError::InvalidFrameState,
            ) && final(self)@ == old(self)@,
            old(self)@.state != CommandBufferState::Pending ==> r is Ok && final(self)@.state
                == CommandBufferState::Recording && final(self)@.commands == Seq::<Command>::empty(),
    {
        match self.state {
            CommandBufferState::Pending => Err(RendererError::InvalidFrameState),
            _ => {
                self.state = CommandBufferState::Recording;
                self.commands = Vec::new();
                Ok(())
            },
        }
    }

    /// Appends a command; only an open buffer accepts one.
    pub fn record(&mut self, c: Command) -> (r: Result<(), RendererError>)
        ensures
            old(self)@.state == CommandBufferState::Recording ==> r is Ok && final(self)@.state
                == CommandBufferState::Recording && final(self)@.commands == old(self)@.commands.push(c),
            old(self)@.state != CommandBufferState::Recording ==> r == Err::<(), RendererError>(
                RendererError::InvalidFrameState,
            ) && final(self)@ == old(self)@,
    {
        match self.state {
            CommandBufferState::Recording => {
                self.commands.push(c);
                Ok(())
            },
            _ => Err(RendererError::InvalidFrameState),
        }
    }

    /// Closes the buffer; it can then be submitted.
    pub fn end(&mut self) -> (r: Result<(), RendererError>)
        ensures
            final(self)@.commands == old(self)@.commands,
            old(self)@.state == CommandBufferState::Recording ==> r is Ok && final(self)@.state
                == CommandBufferState::Executable,
            old(self)@.state != CommandBufferState::Recording ==> r == Err::<(), RendererError>(
                RendererError::InvalidFrameState,
            ) && final(self)@.state == old(self)@.state,
    {
        match self.state {
            CommandBufferState::Recording => {
                self.state = CommandBufferState::Executable;
                Ok(())
            },
            _ => Err(RendererError::InvalidFrameState),
        }
    }

    /// Marks the buffer submitted.
    pub fn submit(&mut self) -> (r: Result<(), RendererError>)
        ensures
            final(self)@.commands == old(self)@.commands,
            old(self)@.state == CommandBufferState::Executable ==> r is Ok && final(self)@.state
                == CommandBufferState::Pending,
            old(self)@.state != CommandBufferState::Executable ==> r == Err::<(), RendererError>(
                RendererError::InvalidFrameState,
            ) && final(self)@.state == old(self)@.state,
    {
        match self.state {
            CommandBufferState::Executable => {
                self.state = CommandBufferState::Pending;
                Ok(())
            },
            _ => Err(RendererError::InvalidFrameState),
        }
    }

    /// The fence associated with the submission signaled: the buffer may be begun again.
    pub fn completed(&mut self)
        ensures
            final(self)@.commands == old(self)@.commands,
            old(self)@.state == CommandBufferState::Pending ==> final(self)@.state
                == CommandBufferState::Executable,
            old(self)@.state != CommandBufferState::Pending ==> final(self)@.state == old(self)@.state,
    {
        match self.state {
            CommandBufferState::Pending => {
                self.state = CommandBufferState::Executable;
            },
            _ => {},
        }
    }

    /// Begins the buffer and records a frame's prologue against the acquired image.
    pub fn begin_frame(&mut self, image: u32, extent: Extent2D, vertex_buffer: u64) -> (r: Result<
        (),
        RendererError,
    >)
        ensures
            old(self)@.state == CommandBufferState::Pending ==> r == Err::<(), RendererError>(
                RendererError::InvalidFrameState,
            ) && final(self)@ == old(self)@,
            old(self)@.state != CommandBufferState::Pending ==> r is Ok && final(self)@.state
                == CommandBufferState::Recording && final(self)@.commands == frame_prologue(
                image,
                extent,
                vertex_buffer,
            ),
    {
        match self.begin() {
            Ok(_) => {},
            Err(e) => return Err(e),
        }
        self.commands.push(Command::BeginRenderPass { image, extent });
        self.commands.push(Command::BindPipeline);
        self.commands.push(Command::SetViewport(extent));
        self.commands.push(Command::SetScissor(extent));
        self.commands.push(Command::BindVertexBuffer(vertex_buffer));
        assert(self@.commands =~= frame_prologue(image, extent, vertex_buffer));
        Ok(())
    }

    /// Records a non-indexed draw of `count` vertices starting at `offset`.
    pub fn draw_vertices(&mut self, count: u32, offset: u32) -> (r: Result<(), RendererError>)
        ensures
            old(self)@.state == CommandBufferState::Recording ==> r is Ok && final(self)@.state
                == CommandBufferState::Recording && final(self)@.commands == old(self)@.commands.push(
                Command::Draw { vertex_count: count, first_vertex: offset },
            ),
            old(self)@.state != CommandBufferState::Recording ==> r == Err::<(), RendererError>(
                RendererError::InvalidFrameState,
            ) && final(self)@ == old(self)@,
    {
        self.record(Command::Draw { vertex_count: count, first_vertex: offset })
    }

    /// Ends the render pass and closes the buffer.
    pub fn end_frame(&mut self) -> (r: Result<(), RendererError>)
        ensures
            old(self)@.state == CommandBufferState::Recording ==> r is Ok && final(self)@.state
                == CommandBufferState::Executable && final(self)@.commands == old(self)@.commands.push(
                Command::EndRenderPass,
            ),
            old(self)@.state != CommandBufferState::Recording ==> r == Err::<(), RendererError>(
                RendererError::InvalidFrameState,
            ) && final(self)@ == old(self)@,
    {
        match self.record(Command::EndRenderPass) {
            Ok(_) => {},
            Err(e) => return Err(e),
        }
        self.end()
    }
}

/// The one-shot copy of a transfer: a freshly begun buffer holding exactly one copy
/// command, closed and ready to submit with its own fence.
pub fn one_shot_copy(src: u64, dst: u64, region: BufferCopy) -> (r: CommandRecorder)
    ensures
        r@.state == CommandBufferState::Executable,
        r@.commands == seq![Command::CopyBuffer { src, dst, region }],
{
    let mut rec = CommandRecorder::new();
    let _ = rec.begin();
    let _ = rec.record(Command::CopyBuffer { src, dst, region });
    let _ = rec.end();
    assert(rec@.commands =~= seq![Command::CopyBuffer { src, dst, region }]);
    rec
}

} // verus!
