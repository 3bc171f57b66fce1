use xtreme_game::command::{Command, CommandBufferState, CommandRecorder};
use xtreme_game::error::RendererError;
use xtreme_game::swapchain::Extent2D;

#[test]
fn frame_recording_sequence() {
    let extent = Extent2D { width: 640, height: 480 };
    let mut rec = CommandRecorder::new();
    assert_eq!(rec.begin_frame(1, extent, 77), Ok(()));
    assert_eq!(rec.draw_vertices(3, 0), Ok(()));
    assert_eq!(rec.draw_vertices(6, 3), Ok(()));
    assert_eq!(rec.end_frame(), Ok(()));
    assert_eq!(rec.state(), CommandBufferState::Executable);
    assert_eq!(
        rec.commands(),
        &vec![
            Command::BeginRenderPass { image: 1, extent },
            Command::BindPipeline,
            Command::SetViewport(extent),
            Command::SetScissor(extent),
            Command::BindVertexBuffer(77),
            Command::Draw { vertex_count: 3, first_vertex: 0 },
            Command::Draw { vertex_count: 6, first_vertex: 3 },
            Command::EndRenderPass,
        ]
    );
}

#[test]
fn pending_buffer_cannot_be_reset() {
    let mut rec = CommandRecorder::new();
    rec.begin().unwrap();
    rec.end().unwrap();
    rec.submit().unwrap();
    assert_eq!(rec.state(), CommandBufferState::Pending);
    assert_eq!(rec.begin(), Err(RendererError::InvalidFrameState));
    rec.completed();
    assert_eq!(rec.begin(), Ok(()));
    assert!(rec.commands().is_empty());
}

#[test]
fn draw_outside_recording_refused() {
    let mut rec = CommandRecorder::new();
    assert_eq!(rec.draw_vertices(3, 0), Err(RendererError::InvalidFrameState));
    assert_eq!(rec.end_frame(), Err(RendererError::InvalidFrameState));
    assert_eq!(rec.submit(), Err(RendererError::InvalidFrameState));
}
