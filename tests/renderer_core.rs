use xtreme_game::command::Command;
use xtreme_game::error::RendererError;
use xtreme_game::frame::{AcquireResult, FrameAction, PresentResult};
use xtreme_game::renderer::RendererCore;
use xtreme_game::swapchain::Extent2D;

#[test]
fn one_frame_through_the_core() {
    let extent = Extent2D { width: 1024, height: 768 };
    let mut core = RendererCore::new(2, extent, 5);
    assert_eq!(core.draw_vertices(3, 0), Err(RendererError::InvalidFrameState));
    assert_eq!(core.begin_frame(), FrameAction::WaitFence(0));
    assert_eq!(core.fence_signaled(), FrameAction::Acquire(0));
    assert_eq!(
        core.image_acquired(AcquireResult::Acquired(1)),
        FrameAction::Record { slot: 0, image: 1, extent, generation: 0 }
    );
    assert_eq!(core.draw_vertices(3, 0), Ok(()));
    assert_eq!(core.end_frame(), FrameAction::Submit { slot: 0, image: 1 });
    assert_eq!(
        core.commands(),
        &vec![
            Command::BeginRenderPass { image: 1, extent },
            Command::BindPipeline,
            Command::SetViewport(extent),
            Command::SetScissor(extent),
            Command::BindVertexBuffer(5),
            Command::Draw { vertex_count: 3, first_vertex: 0 },
            Command::EndRenderPass,
        ]
    );
    assert_eq!(core.submitted(), FrameAction::Present { slot: 0, image: 1 });
    assert_eq!(core.presented(PresentResult::Presented), FrameAction::Complete);
    assert_eq!(core.frame().current_slot(), 1);
}

#[test]
fn core_records_new_extent_after_resize() {
    let extent = Extent2D { width: 1024, height: 768 };
    let mut core = RendererCore::new(2, extent, 5);
    core.update_resolution(800, 600);
    core.load_vertices(9);
    core.begin_frame();
    let resized = Extent2D { width: 800, height: 600 };
    assert_eq!(core.fence_signaled(), FrameAction::Recreate(resized));
    assert_eq!(core.swapchain_recreated(2, resized), FrameAction::Acquire(0));
    core.image_acquired(AcquireResult::Acquired(0));
    assert_eq!(core.commands()[0], Command::BeginRenderPass { image: 0, extent: resized });
    assert_eq!(core.commands()[4], Command::BindVertexBuffer(9));
}
