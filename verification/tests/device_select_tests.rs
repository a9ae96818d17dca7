use render_core::device_select::{
    check_names_supported, contains_name, device_suitable, find_queue_family,
    get_max_usable_sample_count, pick_first_suitable, QueueFamilyIndices, QueueFamilyInfo,
    SAMPLE_COUNT_1, SAMPLE_COUNT_4, SAMPLE_COUNT_64, SAMPLE_COUNT_8,
};

fn fam(count: u32, graphics: bool, present: bool) -> QueueFamilyInfo {
    QueueFamilyInfo { queue_count: count, supports_graphics: graphics, supports_present: present }
}

#[test]
fn queue_family_indices_completeness() {
    let both = QueueFamilyIndices::new(Some(0), Some(1));
    assert!(both.is_complete());
    let only_graphics = QueueFamilyIndices::new(Some(0), None);
    assert!(!only_graphics.is_complete());
    let neither = QueueFamilyIndices::new(None, None);
    assert!(!neither.is_complete());
}

#[test]
fn finds_both_families() {
    let families = vec![fam(1, true, false), fam(2, false, true)];
    let r = find_queue_family(&families);
    assert_eq!(r.graphics_family, Some(0));
    assert_eq!(r.present_family, Some(1));
    assert!(r.is_complete());
}

#[test]
fn one_family_can_serve_both() {
    let families = vec![fam(4, true, true)];
    let r = find_queue_family(&families);
    assert_eq!(r.graphics_family, Some(0));
    assert_eq!(r.present_family, Some(0));
}

#[test]
fn missing_present_support_leaves_incomplete() {
    let families = vec![fam(1, true, false), fam(1, true, false)];
    let r = find_queue_family(&families);
    assert!(r.graphics_family.is_some());
    assert_eq!(r.present_family, None);
    assert!(!r.is_complete());
}

#[test]
fn empty_queue_family_does_not_count() {
    // A family with zero queues offers nothing.
    let families = vec![fam(0, true, true)];
    let r = find_queue_family(&families);
    assert_eq!(r.graphics_family, None);
    assert_eq!(r.present_family, None);
}

#[test]
fn suitability_requires_everything() {
    let complete = QueueFamilyIndices::new(Some(0), Some(0));
    assert!(device_suitable(&complete, true, 2, 2, true));
    assert!(!device_suitable(&complete, false, 2, 2, true));
    assert!(!device_suitable(&complete, true, 0, 2, true));
    assert!(!device_suitable(&complete, true, 2, 0, true));
    assert!(!device_suitable(&complete, true, 2, 2, false));
    let incomplete = QueueFamilyIndices::new(Some(0), None);
    assert!(!device_suitable(&incomplete, true, 2, 2, true));
}

#[test]
fn first_suitable_adapter_is_picked() {
    assert_eq!(pick_first_suitable(&vec![false, true, true]), Some(1));
    assert_eq!(pick_first_suitable(&vec![true]), Some(0));
    assert_eq!(pick_first_suitable(&vec![false, false]), None);
    assert_eq!(pick_first_suitable(&vec![]), None);
}

#[test]
fn name_lookup() {
    let names: Vec<Vec<u8>> = vec![b"VK_KHR_swapchain".to_vec(), b"VK_KHR_surface".to_vec()];
    assert!(contains_name(&names, &b"VK_KHR_swapchain".to_vec()));
    assert!(!contains_name(&names, &b"VK_KHR_swap".to_vec()));
    assert!(!contains_name(&names, &b"VK_KHR_swapchain2".to_vec()));
}

#[test]
fn required_names_subset_check() {
    let available: Vec<Vec<u8>> = vec![
        b"VK_KHR_surface".to_vec(),
        b"VK_KHR_swapchain".to_vec(),
        b"VK_LAYER_KHRONOS_validation".to_vec(),
    ];
    let required: Vec<Vec<u8>> = vec![b"VK_KHR_swapchain".to_vec()];
    assert!(check_names_supported(&required, &available));
    let missing: Vec<Vec<u8>> = vec![b"VK_KHR_swapchain".to_vec(), b"VK_EXT_other".to_vec()];
    assert!(!check_names_supported(&missing, &available));
    let none: Vec<Vec<u8>> = vec![];
    assert!(check_names_supported(&none, &available));
}

#[test]
fn max_sample_count_from_both_masks() {
    // Both support up to 64.
    assert_eq!(get_max_usable_sample_count(0x7F, 0x7F), SAMPLE_COUNT_64);
    // The weaker of the two wins: min(0x7F, 0x0F) = 0x0F -> 8 samples.
    assert_eq!(get_max_usable_sample_count(0x7F, 0x0F), SAMPLE_COUNT_8);
    assert_eq!(get_max_usable_sample_count(0x04, 0x07), SAMPLE_COUNT_4);
    assert_eq!(get_max_usable_sample_count(0x01, 0x01), SAMPLE_COUNT_1);
    // Nothing beyond single sampling in the weaker mask.
    assert_eq!(get_max_usable_sample_count(0x02, 0x01), SAMPLE_COUNT_1);
}
