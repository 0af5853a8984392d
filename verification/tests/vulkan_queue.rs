use hello_samples::vulkan::flags::{QUEUE_COMPUTE, QUEUE_GRAPHICS};
use hello_samples::vulkan::queue::{
    distinct_queue_families, find_queue_families, first_capable_family, pick_graphics_queue,
    unique_queue_families, QueueFamily, QueueFamilyIndices,
};

const TRANSFER: u32 = 0x4;

fn family(queue_flags: u32, present_support: bool) -> QueueFamily {
    QueueFamily { queue_flags, present_support }
}

fn indices(graphics_family: Option<u32>, present_family: Option<u32>) -> QueueFamilyIndices {
    QueueFamilyIndices { graphics_family, present_family }
}

#[test]
fn flag_constants_match_the_bindings() {
    assert_eq!(QUEUE_GRAPHICS, ash::vk::QueueFlags::GRAPHICS.as_raw());
    assert_eq!(QUEUE_COMPUTE, ash::vk::QueueFlags::COMPUTE.as_raw());
}

#[test]
fn new_indices_are_empty() {
    let i = QueueFamilyIndices::new();
    assert_eq!(i, indices(None, None));
    assert!(!i.is_complete());
}

#[test]
fn indices_are_complete_with_both_families() {
    assert!(indices(Some(0), Some(0)).is_complete());
    assert!(indices(Some(3), Some(1)).is_complete());
    assert!(!indices(Some(0), None).is_complete());
    assert!(!indices(None, Some(0)).is_complete());
    assert!(!indices(None, None).is_complete());
}

#[test]
fn record_keeps_what_a_family_is_not() {
    let mut i = QueueFamilyIndices::new();
    i.record(0, true, false);
    assert_eq!(i, indices(Some(0), None));
    i.record(1, false, false);
    assert_eq!(i, indices(Some(0), None));
    i.record(2, false, true);
    assert_eq!(i, indices(Some(0), Some(2)));
    i.record(3, true, true);
    assert_eq!(i, indices(Some(3), Some(3)));
}

#[test]
fn scan_of_no_families_finds_nothing() {
    assert_eq!(find_queue_families(&[], QUEUE_GRAPHICS), indices(None, None));
}

#[test]
fn scan_takes_one_family_for_both() {
    let families = [family(QUEUE_GRAPHICS | QUEUE_COMPUTE | TRANSFER, true), family(TRANSFER, true)];
    assert_eq!(find_queue_families(&families, QUEUE_GRAPHICS), indices(Some(0), Some(0)));
}

#[test]
fn scan_stops_once_both_are_found() {
    let families = [
        family(QUEUE_GRAPHICS, false),
        family(TRANSFER, true),
        family(QUEUE_GRAPHICS, true),
    ];
    assert_eq!(find_queue_families(&families, QUEUE_GRAPHICS), indices(Some(0), Some(1)));
}

#[test]
fn scan_keeps_the_last_match_before_it_stops() {
    let families = [
        family(QUEUE_GRAPHICS, false),
        family(QUEUE_GRAPHICS, false),
        family(QUEUE_GRAPHICS, true),
        family(QUEUE_GRAPHICS, true),
    ];
    assert_eq!(find_queue_families(&families, QUEUE_GRAPHICS), indices(Some(2), Some(2)));
    let families = [
        family(TRANSFER, true),
        family(TRANSFER, true),
        family(QUEUE_GRAPHICS, false),
        family(TRANSFER, true),
    ];
    assert_eq!(find_queue_families(&families, QUEUE_GRAPHICS), indices(Some(2), Some(1)));
}

#[test]
fn scan_without_presenting_family_is_incomplete() {
    let families = [family(QUEUE_GRAPHICS, false), family(QUEUE_COMPUTE, false)];
    let found = find_queue_families(&families, QUEUE_GRAPHICS);
    assert_eq!(found, indices(Some(0), None));
    assert!(!found.is_complete());
}

#[test]
fn scan_without_capable_family_is_incomplete() {
    let families = [family(QUEUE_COMPUTE, true), family(TRANSFER, true)];
    let found = find_queue_families(&families, QUEUE_GRAPHICS);
    assert_eq!(found, indices(None, Some(1)));
    assert!(!found.is_complete());
}

#[test]
fn scan_wants_every_bit_asked_for() {
    let both = QUEUE_GRAPHICS | QUEUE_COMPUTE;
    let families = [
        family(QUEUE_GRAPHICS, true),
        family(QUEUE_COMPUTE, false),
        family(both | TRANSFER, false),
    ];
    assert_eq!(find_queue_families(&families, both), indices(Some(2), Some(0)));
    assert_eq!(find_queue_families(&families, QUEUE_GRAPHICS), indices(Some(0), Some(0)));
}

#[test]
fn first_capable_family_is_the_first() {
    assert_eq!(first_capable_family(&[], QUEUE_GRAPHICS), None);
    assert_eq!(first_capable_family(&[QUEUE_COMPUTE, TRANSFER], QUEUE_GRAPHICS), None);
    assert_eq!(
        first_capable_family(&[TRANSFER, QUEUE_GRAPHICS | TRANSFER, QUEUE_GRAPHICS], QUEUE_GRAPHICS),
        Some(1)
    );
}

#[test]
fn graphics_queue_comes_from_the_first_device_that_has_one() {
    assert_eq!(pick_graphics_queue(&[]), None);
    assert_eq!(pick_graphics_queue(&[vec![], vec![QUEUE_COMPUTE]]), None);
    let devices = vec![
        vec![QUEUE_COMPUTE, TRANSFER],
        vec![TRANSFER, QUEUE_COMPUTE, QUEUE_GRAPHICS | QUEUE_COMPUTE, QUEUE_GRAPHICS],
        vec![QUEUE_GRAPHICS],
    ];
    assert_eq!(pick_graphics_queue(&devices), Some((1, 2)));
}

#[test]
fn unique_families_are_sorted() {
    assert_eq!(unique_queue_families(&indices(Some(2), Some(2))), vec![2]);
    assert_eq!(unique_queue_families(&indices(Some(0), Some(1))), vec![0, 1]);
    assert_eq!(unique_queue_families(&indices(Some(3), Some(1))), vec![1, 3]);
}

#[test]
fn distinct_families_start_with_graphics() {
    assert_eq!(distinct_queue_families(&indices(Some(2), Some(2))), vec![2]);
    assert_eq!(distinct_queue_families(&indices(Some(0), Some(1))), vec![0, 1]);
    assert_eq!(distinct_queue_families(&indices(Some(3), Some(1))), vec![3, 1]);
}
