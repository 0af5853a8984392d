use hello_samples::vulkan::device::{
    check_device_extension_support, check_validation_layer_support, is_device_suitable,
    pick_physical_device, same_name, DeviceSupport,
};
use hello_samples::vulkan::queue::QueueFamilyIndices;

fn names(list: &[&str]) -> Vec<Vec<u8>> {
    list.iter().map(|s| s.as_bytes().to_vec()).collect()
}

fn device(
    graphics_family: Option<u32>,
    present_family: Option<u32>,
    extensions_supported: bool,
    format_count: usize,
    present_mode_count: usize,
) -> DeviceSupport {
    DeviceSupport {
        indices: QueueFamilyIndices { graphics_family, present_family },
        extensions_supported,
        format_count,
        present_mode_count,
    }
}

#[test]
fn names_are_the_same_byte_for_byte() {
    assert!(same_name(b"", b""));
    assert!(same_name(b"VK_KHR_swapchain", b"VK_KHR_swapchain"));
    assert!(!same_name(b"VK_KHR_swapchain", b"VK_KHR_swapchaim"));
    assert!(!same_name(b"VK_KHR_swapchain", b"VK_KHR_swapchain2"));
    assert!(!same_name(b"vk_khr_swapchain", b"VK_KHR_swapchain"));
    assert!(!same_name(b"", b"a"));
}

#[test]
fn extension_is_supported_where_it_is_listed() {
    let swapchain = ash::khr::swapchain::NAME.to_bytes();
    let available = names(&["VK_KHR_surface", "VK_KHR_swapchain", "VK_EXT_debug_utils"]);
    assert!(check_device_extension_support(&available, swapchain));
    let available = names(&["VK_KHR_surface", "VK_KHR_swapchain_mutable_format"]);
    assert!(!check_device_extension_support(&available, swapchain));
    assert!(!check_device_extension_support(&[], swapchain));
}

#[test]
fn validation_layers_must_all_be_there() {
    let available = names(&["VK_LAYER_A", "VK_LAYER_KHRONOS_validation", "VK_LAYER_B"]);
    assert!(check_validation_layer_support(&available, &names(&["VK_LAYER_KHRONOS_validation"])));
    assert!(check_validation_layer_support(
        &available,
        &names(&["VK_LAYER_B", "VK_LAYER_KHRONOS_validation"])
    ));
    assert!(!check_validation_layer_support(
        &available,
        &names(&["VK_LAYER_KHRONOS_validation", "VK_LAYER_C"])
    ));
    assert!(check_validation_layer_support(&available, &[]));
    assert!(check_validation_layer_support(&[], &[]));
    assert!(!check_validation_layer_support(&[], &names(&["VK_LAYER_KHRONOS_validation"])));
}

#[test]
fn device_is_suitable_with_everything_in_place() {
    assert!(is_device_suitable(&device(Some(0), Some(0), true, 1, 1)));
    assert!(is_device_suitable(&device(Some(0), Some(2), true, 5, 3)));
}

#[test]
fn device_is_unsuitable_when_anything_is_missing() {
    assert!(!is_device_suitable(&device(None, Some(0), true, 1, 1)));
    assert!(!is_device_suitable(&device(Some(0), None, true, 1, 1)));
    assert!(!is_device_suitable(&device(Some(0), Some(0), false, 1, 1)));
    assert!(!is_device_suitable(&device(Some(0), Some(0), true, 0, 1)));
    assert!(!is_device_suitable(&device(Some(0), Some(0), true, 1, 0)));
}

#[test]
fn first_suitable_device_is_picked() {
    let devices = [
        device(Some(0), None, true, 2, 2),
        device(Some(0), Some(0), true, 2, 2),
        device(Some(1), Some(1), true, 1, 1),
    ];
    assert_eq!(pick_physical_device(&devices), Some(1));
}

#[test]
fn no_device_is_picked_where_none_is_suitable() {
    let devices = [device(Some(0), None, true, 2, 2), device(Some(0), Some(0), false, 2, 2)];
    assert_eq!(pick_physical_device(&devices), None);
    assert_eq!(pick_physical_device(&[]), None);
}
