use rendering::{FrameSlot, SurfaceCapabilities, Swapchain};

fn slot(base: u64) -> FrameSlot {
    FrameSlot {
        command_buffer: base,
        acquired_image_semaphore: base + 1,
        render_finished_semaphore: base + 2,
        render_finished_fence: base + 3,
        finished_presenting_fence: base + 4,
    }
}

fn caps() -> SurfaceCapabilities {
    SurfaceCapabilities { min_width: 100, min_height: 100, max_width: 1920, max_height: 1080 }
}

fn fresh() -> Swapchain {
    Swapchain::new(&caps(), vec![slot(10), slot(20)])
}

#[test]
fn new_swapchain_starts_at_surface_minimum_extent() {
    let swapchain = fresh();
    assert_eq!(swapchain.width(), 100);
    assert_eq!(swapchain.height(), 100);
    assert_eq!(swapchain.recreation_count(), 0);
    assert_eq!(swapchain.current_frame(), 0);
}

#[test]
fn resize_above_maximum_yields_exactly_the_maximum() {
    let mut swapchain = fresh();
    assert!(swapchain.resize(5000, 4000, &caps()));
    assert_eq!(swapchain.width(), 1920);
    assert_eq!(swapchain.height(), 1080);
}

#[test]
fn resize_below_minimum_yields_exactly_the_minimum() {
    let mut swapchain = fresh();
    assert!(swapchain.resize(800, 600, &caps()));
    assert!(swapchain.resize(50, 40, &caps()));
    assert_eq!(swapchain.width(), 100);
    assert_eq!(swapchain.height(), 100);
}

#[test]
fn resize_within_bounds_takes_the_requested_extent() {
    let mut swapchain = fresh();
    assert!(swapchain.resize(1280, 720, &caps()));
    assert_eq!(swapchain.width(), 1280);
    assert_eq!(swapchain.height(), 720);
}

#[test]
fn zero_extent_resize_is_a_noop() {
    let mut swapchain = fresh();
    assert!(!swapchain.resize(0, 600, &caps()));
    assert!(!swapchain.resize(800, 0, &caps()));
    assert_eq!(swapchain.width(), 100);
    assert_eq!(swapchain.height(), 100);
    assert_eq!(swapchain.recreation_count(), 0);
}

#[test]
fn identical_resize_twice_recreates_only_once() {
    let mut swapchain = fresh();
    assert!(swapchain.resize(800, 600, &caps()));
    assert_eq!(swapchain.recreation_count(), 1);
    // the second identical request is a no-op: no further recreation
    assert!(!swapchain.resize(800, 600, &caps()));
    assert_eq!(swapchain.recreation_count(), 1);
    assert_eq!(swapchain.width(), 800);
    assert_eq!(swapchain.height(), 600);
}
