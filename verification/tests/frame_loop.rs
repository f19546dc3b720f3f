use rendering::{
    AcquireOutcome, AcquireStep, Device, FrameSlot, PresentOutcome, RenderResult, RenderSync,
    SemaphoreSignal, SurfaceCapabilities, Swapchain,
};

fn slot(base: u64) -> FrameSlot {
    FrameSlot {
        command_buffer: base,
        acquired_image_semaphore: base + 1,
        render_finished_semaphore: base + 2,
        render_finished_fence: base + 3,
        finished_presenting_fence: base + 4,
    }
}

fn caps() -> SurfaceCapabilities {
    SurfaceCapabilities { min_width: 100, min_height: 100, max_width: 1920, max_height: 1080 }
}

fn fresh() -> (Swapchain, Device) {
    let swapchain = Swapchain::new(&caps(), vec![slot(10), slot(20)]);
    let device = Device::new(7);
    (swapchain, device)
}

fn no_sync() -> RenderSync {
    RenderSync { wait_semaphore_info: None, signal_semaphore_info: None }
}

/// One full frame with acquisition always ready; returns the slot recorded
/// on, the timeline value the submission signals, and the frame's result.
fn run_frame(
    swapchain: &mut Swapchain,
    device: &mut Device,
    present: PresentOutcome,
) -> (usize, u64, RenderResult) {
    assert!(swapchain.poll_current_slot(true, true));
    let step = swapchain.finish_acquire(AcquireOutcome::Acquired {
        image_index: 0,
        suboptimal: false,
    });
    let slot_index = match step {
        AcquireStep::Begin { slot, .. } => slot,
        AcquireStep::Bail { .. } => panic!("acquisition was ready"),
    };
    let plan = swapchain.submit_frame(device, no_sync());
    let result = swapchain.finish_present(present);
    (slot_index, plan.timeline_value, result)
}

#[test]
fn four_frames_alternate_slots_and_step_timeline_by_one() {
    let (mut swapchain, mut device) = fresh();
    let mut slots = Vec::new();
    let mut values = Vec::new();
    for _ in 0..4 {
        let (slot_index, value, result) =
            run_frame(&mut swapchain, &mut device, PresentOutcome::Presented { suboptimal: false });
        assert_eq!(result, RenderResult::Success);
        slots.push(slot_index);
        values.push(value);
    }
    assert_eq!(slots, vec![0, 1, 0, 1]);
    assert_eq!(values, vec![1, 2, 3, 4]);
}

#[test]
fn unsignaled_fences_keep_reporting_not_ready_without_state_change() {
    let (mut swapchain, _device) = fresh();
    for _ in 0..3 {
        assert!(!swapchain.poll_current_slot(false, true));
        assert!(!swapchain.poll_current_slot(true, false));
        assert!(!swapchain.poll_current_slot(false, false));
        assert_eq!(swapchain.current_frame(), 0);
        assert_eq!(swapchain.width(), 100);
        assert_eq!(swapchain.height(), 100);
        assert_eq!(swapchain.recreation_count(), 0);
    }
    // the slot ring was not advanced: the next ready frame still uses slot 0
    let step = {
        assert!(swapchain.poll_current_slot(true, true));
        swapchain.finish_acquire(AcquireOutcome::Acquired { image_index: 0, suboptimal: false })
    };
    assert_eq!(step, AcquireStep::Begin { slot: 0, image_index: 0 });
}

#[test]
fn acquire_not_ready_abandons_frame_and_keeps_slot() {
    let (mut swapchain, _device) = fresh();
    assert!(swapchain.poll_current_slot(true, true));
    let step = swapchain.finish_acquire(AcquireOutcome::NotReady);
    assert_eq!(step, AcquireStep::Bail { result: RenderResult::NotReady });
    assert_eq!(swapchain.current_frame(), 0);
}

#[test]
fn acquire_out_of_date_abandons_frame() {
    let (mut swapchain, _device) = fresh();
    assert!(swapchain.poll_current_slot(true, true));
    let step = swapchain.finish_acquire(AcquireOutcome::OutOfDate);
    assert_eq!(step, AcquireStep::Bail { result: RenderResult::OutOfDate });
    assert_eq!(swapchain.current_frame(), 0);
}

#[test]
fn stale_presentation_on_third_frame_then_resize_recovers() {
    let (mut swapchain, mut device) = fresh();
    for _ in 0..2 {
        let (_, _, result) =
            run_frame(&mut swapchain, &mut device, PresentOutcome::Presented { suboptimal: false });
        assert_eq!(result, RenderResult::Success);
    }
    let (_, _, result) = run_frame(&mut swapchain, &mut device, PresentOutcome::OutOfDate);
    assert_eq!(result, RenderResult::OutOfDate);

    assert!(swapchain.resize(800, 600, &caps()));
    assert_eq!(swapchain.width(), 800);
    assert_eq!(swapchain.height(), 600);

    let (slot_index, value, result) =
        run_frame(&mut swapchain, &mut device, PresentOutcome::Presented { suboptimal: false });
    assert_eq!(result, RenderResult::Success);
    assert_eq!(slot_index, 1);
    assert_eq!(value, 4);
}

#[test]
fn suboptimal_from_acquire_or_present_is_reported() {
    let (mut swapchain, mut device) = fresh();

    assert!(swapchain.poll_current_slot(true, true));
    swapchain.finish_acquire(AcquireOutcome::Acquired { image_index: 0, suboptimal: true });
    swapchain.submit_frame(&mut device, no_sync());
    let result = swapchain.finish_present(PresentOutcome::Presented { suboptimal: false });
    assert_eq!(result, RenderResult::Suboptimal);

    assert!(swapchain.poll_current_slot(true, true));
    swapchain.finish_acquire(AcquireOutcome::Acquired { image_index: 0, suboptimal: false });
    swapchain.submit_frame(&mut device, no_sync());
    let result = swapchain.finish_present(PresentOutcome::Presented { suboptimal: true });
    assert_eq!(result, RenderResult::Suboptimal);
}

#[test]
fn submit_plan_merges_caller_waits_and_signals() {
    let (mut swapchain, mut device) = fresh();
    assert!(swapchain.poll_current_slot(true, true));
    swapchain.finish_acquire(AcquireOutcome::Acquired { image_index: 3, suboptimal: false });
    let user_wait = SemaphoreSignal { semaphore: 900, value: 0, stage_mask: 0x1 };
    let user_signal = SemaphoreSignal { semaphore: 901, value: 0, stage_mask: 0x2 };
    let plan = swapchain.submit_frame(
        &mut device,
        RenderSync { wait_semaphore_info: Some(user_wait), signal_semaphore_info: Some(user_signal) },
    );

    assert_eq!(plan.command_buffer, 10);
    assert_eq!(plan.submission_fence, 13);
    assert_eq!(plan.timeline_value, 1);

    assert_eq!(plan.wait_semaphore_infos.len(), 2);
    assert_eq!(plan.wait_semaphore_infos[0].semaphore, 11);
    assert_eq!(plan.wait_semaphore_infos[0].stage_mask, 0x400);
    assert_eq!(plan.wait_semaphore_infos[1], user_wait);

    assert_eq!(plan.signal_semaphore_infos.len(), 3);
    assert_eq!(plan.signal_semaphore_infos[0].semaphore, 12);
    assert_eq!(plan.signal_semaphore_infos[0].stage_mask, 0x8000);
    assert_eq!(plan.signal_semaphore_infos[1].semaphore, 7);
    assert_eq!(plan.signal_semaphore_infos[1].value, 1);
    assert_eq!(plan.signal_semaphore_infos[2], user_signal);

    let present = swapchain.present_plan();
    assert_eq!(present.wait_semaphore, 12);
    assert_eq!(present.presentation_fence, 14);
    assert_eq!(present.image_index, 3);
}

#[test]
fn submit_plan_without_caller_sync_has_fixed_sets() {
    let (mut swapchain, mut device) = fresh();
    assert!(swapchain.poll_current_slot(true, true));
    swapchain.finish_acquire(AcquireOutcome::Acquired { image_index: 0, suboptimal: false });
    let plan = swapchain.submit_frame(&mut device, no_sync());
    assert_eq!(plan.wait_semaphore_infos.len(), 1);
    assert_eq!(plan.signal_semaphore_infos.len(), 2);
}
