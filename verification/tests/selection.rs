use rendering::instance::{
    bytes_equal, check_device, contains_name, find_graphics_queue_family, missing_required_name,
    select_physical_device, COMPUTE_QUEUE_FLAG, GRAPHICS_QUEUE_FLAG,
};
use rendering::PhysicalDeviceInfo;

const BOTH: u32 = GRAPHICS_QUEUE_FLAG | COMPUTE_QUEUE_FLAG;

fn required_extensions() -> Vec<Vec<u8>> {
    vec![b"VK_KHR_swapchain".to_vec(), b"VK_EXT_swapchain_maintenance1".to_vec()]
}

fn good_device() -> PhysicalDeviceInfo {
    PhysicalDeviceInfo {
        api_version: 4206592,
        extensions: vec![
            b"VK_KHR_swapchain".to_vec(),
            b"VK_EXT_swapchain_maintenance1".to_vec(),
            b"VK_KHR_maintenance4".to_vec(),
        ],
        queue_family_flags: vec![COMPUTE_QUEUE_FLAG, BOTH, BOTH],
    }
}

#[test]
fn byte_names_compare_by_content() {
    assert!(bytes_equal(&b"VK_KHR_surface".to_vec(), &b"VK_KHR_surface".to_vec()));
    assert!(!bytes_equal(&b"VK_KHR_surface".to_vec(), &b"VK_KHR_surfac".to_vec()));
    assert!(!bytes_equal(&b"VK_KHR_surface".to_vec(), &b"VK_KHR_surfacX".to_vec()));
}

#[test]
fn contains_name_finds_only_present_names() {
    let names = vec![b"alpha".to_vec(), b"beta".to_vec()];
    assert!(contains_name(&names, &b"beta".to_vec()));
    assert!(!contains_name(&names, &b"gamma".to_vec()));
}

#[test]
fn missing_required_name_reports_the_first_gap() {
    let available = vec![b"alpha".to_vec(), b"beta".to_vec()];
    let required = vec![b"beta".to_vec(), b"gamma".to_vec(), b"delta".to_vec()];
    assert_eq!(missing_required_name(&available, &required), Some(1));
    let satisfied = vec![b"beta".to_vec(), b"alpha".to_vec()];
    assert_eq!(missing_required_name(&available, &satisfied), None);
}

#[test]
fn queue_family_search_takes_the_first_combined_family() {
    assert_eq!(
        find_graphics_queue_family(&vec![COMPUTE_QUEUE_FLAG, GRAPHICS_QUEUE_FLAG, BOTH, BOTH]),
        Some(2)
    );
    assert_eq!(find_graphics_queue_family(&vec![COMPUTE_QUEUE_FLAG, GRAPHICS_QUEUE_FLAG]), None);
    assert_eq!(find_graphics_queue_family(&vec![]), None);
}

#[test]
fn check_device_rejects_each_missing_capability() {
    let required = required_extensions();

    let mut low_version = good_device();
    low_version.api_version = 1;
    assert_eq!(check_device(&low_version, 4206592, &required), None);

    let mut missing_extension = good_device();
    missing_extension.extensions = vec![b"VK_KHR_swapchain".to_vec()];
    assert_eq!(check_device(&missing_extension, 4206592, &required), None);

    let mut no_queue = good_device();
    no_queue.queue_family_flags = vec![COMPUTE_QUEUE_FLAG];
    assert_eq!(check_device(&no_queue, 4206592, &required), None);

    assert_eq!(check_device(&good_device(), 4206592, &required), Some(1));
}

#[test]
fn selection_picks_the_first_acceptable_device() {
    let required = required_extensions();
    let mut low_version = good_device();
    low_version.api_version = 1;
    let mut missing_extension = good_device();
    missing_extension.extensions = Vec::new();

    let devices = vec![low_version, missing_extension, good_device(), good_device()];
    assert_eq!(select_physical_device(&devices, 4206592, &required), Some((2, 1)));
}

#[test]
fn selection_reports_no_acceptable_device() {
    let required = required_extensions();
    let mut low_version = good_device();
    low_version.api_version = 1;
    assert_eq!(select_physical_device(&vec![low_version], 4206592, &required), None);
    assert_eq!(select_physical_device(&vec![], 4206592, &required), None);
}
