use hello_samples::vulkan::version::{api_version_1_3, api_version_1_4, app_version_1_0};

#[test]
fn version_1_4_is_packed() {
    assert_eq!(api_version_1_4(), (1 << 22) | (4 << 12));
    assert_eq!(api_version_1_4(), 0x0040_4000);
    assert_eq!(api_version_1_4(), ash::vk::make_api_version(0, 1, 4, 0));
}

#[test]
fn version_1_3_matches_the_bindings() {
    assert_eq!(api_version_1_3(), 0x0040_3000);
    assert_eq!(api_version_1_3(), ash::vk::API_VERSION_1_3);
}

#[test]
fn version_1_0_matches_the_bindings() {
    assert_eq!(app_version_1_0(), 0x0040_0000);
    assert_eq!(app_version_1_0(), ash::vk::API_VERSION_1_0);
}

#[test]
fn version_parts_come_back_out() {
    let v = api_version_1_4();
    assert_eq!(ash::vk::api_version_variant(v), 0);
    assert_eq!(ash::vk::api_version_major(v), 1);
    assert_eq!(ash::vk::api_version_minor(v), 4);
    assert_eq!(ash::vk::api_version_patch(v), 0);
}
