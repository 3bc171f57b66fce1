use xtreme_game::error::RendererError;
use xtreme_game::frame::{AcquireResult, FrameAction, FrameSync, Phase, PresentResult};
use xtreme_game::swapchain::{choose_extent, Extent2D, SurfaceCapabilities, UNDEFINED_EXTENT};

const EXTENT: Extent2D = Extent2D { width: 1024, height: 768 };

/// Runs one tick in which every answer is a success, acquiring `image`.
fn clean_tick(fs: &mut FrameSync, image: u32) -> FrameAction {
    let slot = fs.current_slot();
    assert_eq!(fs.begin_frame(), FrameAction::WaitFence(slot));
    assert_eq!(fs.fence_signaled(), FrameAction::Acquire(slot));
    let rec = fs.image_acquired(AcquireResult::Acquired(image));
    assert!(matches!(rec, FrameAction::Record { .. }));
    assert_eq!(fs.end_frame(), FrameAction::Submit { slot, image });
    assert_eq!(fs.submitted(), FrameAction::Present { slot, image });
    fs.presented(PresentResult::Presented)
}

#[test]
fn steady_state_cycle() {
    let mut fs = FrameSync::new(3, EXTENT);
    assert_eq!(fs.phase(), Phase::Idle);
    assert_eq!(fs.begin_frame(), FrameAction::WaitFence(0));
    assert_eq!(fs.fence_signaled(), FrameAction::Acquire(0));
    assert_eq!(
        fs.image_acquired(AcquireResult::Acquired(2)),
        FrameAction::Record { slot: 0, image: 2, extent: EXTENT, generation: 0 }
    );
    assert_eq!(fs.end_frame(), FrameAction::Submit { slot: 0, image: 2 });
    assert_eq!(fs.in_flight_count(), 1);
    assert_eq!(fs.submitted(), FrameAction::Present { slot: 0, image: 2 });
    assert_eq!(fs.presented(PresentResult::Presented), FrameAction::Complete);
    assert_eq!(fs.current_slot(), 1);
    assert_eq!(fs.phase(), Phase::Idle);
}

#[test]
fn out_of_order_calls_are_refused() {
    let mut fs = FrameSync::new(2, EXTENT);
    assert_eq!(fs.end_frame(), FrameAction::Fail(RendererError::InvalidFrameState));
    assert_eq!(fs.fence_signaled(), FrameAction::Fail(RendererError::InvalidFrameState));
    assert_eq!(fs.phase(), Phase::Idle);
}

/// A device that finishes each submission a pseudo-random number of ticks later.
struct SimDevice {
    now: u64,
    done_at: Vec<Option<u64>>,
    seed: u64,
}

impl SimDevice {
    fn delay(&mut self) -> u64 {
        self.seed = self.seed.wrapping_mul(6364136223846793005).wrapping_add(1442695040888963407);
        (self.seed >> 33) % 5
    }

    fn outstanding(&self) -> usize {
        self.done_at.iter().filter(|d| matches!(d, Some(t) if *t > self.now)).count()
    }
}

#[test]
fn frame_pacing_bounds_outstanding_fences() {
    let slots = 3u32;
    let mut fs = FrameSync::new(slots, EXTENT);
    let mut dev = SimDevice { now: 0, done_at: vec![None; slots as usize], seed: 42 };
    let mut next_image = 0u32;
    for _tick in 0..1000 {
        dev.now += 1;
        let slot = match fs.begin_frame() {
            FrameAction::WaitFence(s) => s,
            other => panic!("unexpected {:?}", other),
        };
        // Block on the slot's fence: the device runs until that submission is done.
        if let Some(t) = dev.done_at[slot] {
            if t > dev.now {
                dev.now = t;
            }
        }
        assert_eq!(fs.fence_signaled(), FrameAction::Acquire(slot));
        // The slot about to be reused has no submission still executing.
        assert!(dev.done_at[slot].map_or(true, |t| t <= dev.now));
        let image = next_image;
        next_image = (next_image + 1) % slots;
        assert!(matches!(fs.image_acquired(AcquireResult::Acquired(image)), FrameAction::Record { .. }));
        assert_eq!(fs.end_frame(), FrameAction::Submit { slot, image });
        let d = dev.delay();
        dev.done_at[slot] = Some(dev.now + 1 + d);
        assert!(dev.outstanding() <= slots as usize);
        assert!(fs.in_flight_count() <= fs.slot_count());
        assert_eq!(fs.submitted(), FrameAction::Present { slot, image });
        assert_eq!(fs.presented(PresentResult::Presented), FrameAction::Complete);
        assert!(dev.outstanding() <= slots as usize);
    }
}

#[test]
fn resize_between_begin_and_end_applies_next_tick() {
    let mut fs = FrameSync::new(2, EXTENT);
    assert_eq!(fs.begin_frame(), FrameAction::WaitFence(0));
    assert_eq!(fs.fence_signaled(), FrameAction::Acquire(0));
    assert_eq!(
        fs.image_acquired(AcquireResult::Acquired(0)),
        FrameAction::Record { slot: 0, image: 0, extent: EXTENT, generation: 0 }
    );
    fs.update_resolution(800, 600);
    assert_eq!(fs.end_frame(), FrameAction::Submit { slot: 0, image: 0 });
    assert_eq!(fs.submitted(), FrameAction::Present { slot: 0, image: 0 });
    assert_eq!(fs.presented(PresentResult::Presented), FrameAction::Complete);

    assert_eq!(fs.begin_frame(), FrameAction::WaitFence(1));
    let resized = Extent2D { width: 800, height: 600 };
    assert_eq!(fs.fence_signaled(), FrameAction::Recreate(resized));
    let caps = SurfaceCapabilities {
        min_image_count: 2,
        max_image_count: 0,
        current_extent: Extent2D { width: UNDEFINED_EXTENT, height: UNDEFINED_EXTENT },
        supported_transforms: 1,
        current_transform: 1,
    };
    let new_extent = choose_extent(&caps, 800, 600);
    assert_eq!(fs.swapchain_recreated(3, new_extent), FrameAction::Acquire(0));
    assert_eq!(fs.generation(), 1);
    assert_eq!(fs.slot_count(), 3);
    assert_eq!(
        fs.image_acquired(AcquireResult::Acquired(2)),
        FrameAction::Record { slot: 0, image: 2, extent: resized, generation: 1 }
    );
    assert_eq!(fs.extent(), resized);
}

#[test]
fn stale_image_index_after_recreate_is_refused() {
    let mut fs = FrameSync::new(3, EXTENT);
    fs.update_resolution(640, 480);
    fs.begin_frame();
    assert!(matches!(fs.fence_signaled(), FrameAction::Recreate(_)));
    assert_eq!(fs.swapchain_recreated(2, Extent2D { width: 640, height: 480 }), FrameAction::Acquire(0));
    assert_eq!(
        fs.image_acquired(AcquireResult::Acquired(2)),
        FrameAction::Fail(RendererError::InvalidImageIndex)
    );
    assert_eq!(fs.phase(), Phase::Lost);
    assert_eq!(fs.begin_frame(), FrameAction::Fail(RendererError::DeviceLost));
}

#[test]
fn present_out_of_date_recreates_and_completes_tick() {
    let mut fs = FrameSync::new(2, EXTENT);
    fs.begin_frame();
    fs.fence_signaled();
    fs.image_acquired(AcquireResult::Acquired(1));
    fs.end_frame();
    fs.submitted();
    assert_eq!(fs.presented(PresentResult::OutOfDate), FrameAction::Recreate(EXTENT));
    assert_eq!(fs.swapchain_recreated(2, EXTENT), FrameAction::Complete);
    assert_eq!(fs.phase(), Phase::Idle);
    assert_eq!(clean_tick(&mut fs, 0), FrameAction::Complete);
}

#[test]
fn present_suboptimal_also_recreates() {
    let mut fs = FrameSync::new(2, EXTENT);
    fs.begin_frame();
    fs.fence_signaled();
    fs.image_acquired(AcquireResult::Acquired(0));
    fs.end_frame();
    fs.submitted();
    assert_eq!(fs.presented(PresentResult::Suboptimal), FrameAction::Recreate(EXTENT));
    assert_eq!(fs.swapchain_recreated(2, EXTENT), FrameAction::Complete);
}

#[test]
fn acquire_suboptimal_finishes_frame_then_recreates() {
    let mut fs = FrameSync::new(2, EXTENT);
    fs.begin_frame();
    fs.fence_signaled();
    assert!(matches!(fs.image_acquired(AcquireResult::Suboptimal(1)), FrameAction::Record { image: 1, .. }));
    fs.end_frame();
    fs.submitted();
    assert_eq!(fs.presented(PresentResult::Presented), FrameAction::Complete);
    fs.begin_frame();
    assert_eq!(fs.fence_signaled(), FrameAction::Recreate(EXTENT));
}

#[test]
fn acquire_out_of_date_retried_once() {
    let mut fs = FrameSync::new(2, EXTENT);
    fs.begin_frame();
    fs.fence_signaled();
    assert_eq!(fs.image_acquired(AcquireResult::OutOfDate), FrameAction::Recreate(EXTENT));
    assert_eq!(fs.swapchain_recreated(2, EXTENT), FrameAction::Acquire(0));
    assert!(matches!(fs.image_acquired(AcquireResult::Acquired(0)), FrameAction::Record { .. }));
}

#[test]
fn second_out_of_date_escalates() {
    let mut fs = FrameSync::new(2, EXTENT);
    fs.begin_frame();
    fs.fence_signaled();
    fs.image_acquired(AcquireResult::OutOfDate);
    fs.swapchain_recreated(2, EXTENT);
    assert_eq!(
        fs.image_acquired(AcquireResult::OutOfDate),
        FrameAction::Fail(RendererError::SwapchainOutOfDate)
    );
    assert_eq!(fs.phase(), Phase::Lost);
}

#[test]
fn device_lost_is_fatal() {
    let mut fs = FrameSync::new(2, EXTENT);
    fs.begin_frame();
    fs.fence_signaled();
    assert_eq!(fs.image_acquired(AcquireResult::DeviceLost), FrameAction::Fail(RendererError::DeviceLost));
    assert_eq!(fs.begin_frame(), FrameAction::Fail(RendererError::DeviceLost));
}
