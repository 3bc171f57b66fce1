use xtreme_game::device::{graphics_queue_index, pick_physical_device, Adapter, QueueFamily, QUEUE_GRAPHICS};
use xtreme_game::error::{ErrorKind, RendererError};
use xtreme_game::setup::{prerequisites, Component, RendererSetup, SetupStep};

fn fam(flags: u32, present: bool) -> QueueFamily {
    QueueFamily { queue_flags: flags, supports_present: present }
}

#[test]
fn first_family_with_graphics_and_present() {
    let families = vec![fam(0b100, true), fam(QUEUE_GRAPHICS, false), fam(QUEUE_GRAPHICS | 0b10, true), fam(QUEUE_GRAPHICS, true)];
    assert_eq!(graphics_queue_index(&families), Some(2));
    assert_eq!(graphics_queue_index(&vec![fam(0b10, true)]), None);
}

#[test]
fn picks_first_capable_adapter() {
    let adapters = vec![
        Adapter { queue_families: vec![fam(QUEUE_GRAPHICS, false)] },
        Adapter { queue_families: vec![] },
        Adapter { queue_families: vec![fam(0, true), fam(QUEUE_GRAPHICS, true)] },
        Adapter { queue_families: vec![fam(QUEUE_GRAPHICS, true)] },
    ];
    assert_eq!(pick_physical_device(&adapters), Ok((2, 1)));
}

#[test]
fn no_suitable_device() {
    let adapters = vec![Adapter { queue_families: vec![fam(QUEUE_GRAPHICS, false), fam(0b10, true)] }];
    let r = pick_physical_device(&adapters);
    assert_eq!(r, Err(RendererError::NoSuitableDevice));
    assert_eq!(r.unwrap_err().kind(), ErrorKind::Unrecoverable);
    assert_eq!(pick_physical_device(&vec![]), Err(RendererError::NoSuitableDevice));
}

#[test]
fn setup_names_first_missing_prerequisite() {
    let mut s = RendererSetup::new();
    let e = s.check(SetupStep::CreateCommandPool).unwrap_err();
    assert_eq!(e, RendererError::NoInstance);
    assert_eq!(e.kind(), ErrorKind::Sequencing);
    s.provide(Component::Instance);
    assert_eq!(s.check(SetupStep::CreateCommandPool), Err(RendererError::NoqueueFamilyIndex));
}

#[test]
fn setup_in_construction_order() {
    let mut s = RendererSetup::new();
    s.provide(Component::Entry);
    s.provide(Component::Instance);
    s.provide(Component::Window);
    let order = [
        SetupStep::SetDebugCallback,
        SetupStep::CreateSurfaceLoader,
        SetupStep::CreateSurface,
        SetupStep::PickPhysicalDevice,
        SetupStep::ChooseSurfaceFormat,
        SetupStep::ChooseSurfaceResolution,
        SetupStep::CreateLogicalDevice,
        SetupStep::CreateSwapchain,
        SetupStep::CreateImageViews,
        SetupStep::CreateDepthView,
        SetupStep::CreateRenderPass,
        SetupStep::CreateGraphicsPipeline,
        SetupStep::CreateFramebuffers,
        SetupStep::CreateCommandPool,
        SetupStep::CreateCommandBuffers,
        SetupStep::CreateVertexBuffer,
        SetupStep::CreateSemaphores,
    ];
    for step in order {
        assert_eq!(s.check(step), Ok(()));
        s.complete(step);
    }
    assert!(s.has(Component::Framebuffers));
    assert!(s.has(Component::Semaphores));
}

#[test]
fn framebuffers_need_depth_view() {
    let mut s = RendererSetup::new();
    for c in [Component::Device, Component::RenderPass, Component::SurfaceResolution, Component::PresentImageViews] {
        s.provide(c);
    }
    assert_eq!(s.check(SetupStep::CreateFramebuffers), Err(RendererError::NoDepthImageView));
    assert_eq!(prerequisites(SetupStep::CreateSemaphores), vec![Component::Device]);
}

#[test]
fn error_messages() {
    assert_eq!(RendererError::NoEntry.message(), "No entry specified");
    assert_eq!(RendererError::NoqueueFamilyIndex.message(), "No queue family index specified");
    assert_eq!(RendererError::NoSuitableMemoryType.message(), "No suitable memory type");
    assert_eq!(RendererError::DeviceCreationFailed(-3).kind(), ErrorKind::Unrecoverable);
    assert_eq!(RendererError::BufferTooSmall.kind(), ErrorKind::Resource);
}
