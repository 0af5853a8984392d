use hello_samples::direct3d12::{
    build_command_line, constant_buffer_size, cpu_descriptor_handle, get_hardware_adapter,
    gpu_descriptor_handle, is_software_adapter, is_warp_argument, must_wait, window_title,
    AdapterInfo, FenceClock, HeapSlot, SampleCommandLine, CONSTANT_BUFFER_ALIGNMENT,
    DXGI_ADAPTER_FLAG_SOFTWARE, FRAME_COUNT, HEAP_SLOTS,
};

fn args(list: &[&str]) -> Vec<String> {
    list.iter().map(|s| s.to_string()).collect()
}

fn adapter(flags: u32, supports_direct3d12: bool) -> AdapterInfo {
    AdapterInfo { flags, supports_direct3d12 }
}

#[test]
fn warp_flag_in_either_form() {
    assert!(is_warp_argument("-warp"));
    assert!(is_warp_argument("/warp"));
}

#[test]
fn warp_flag_in_any_case() {
    assert!(is_warp_argument("-WARP"));
    assert!(is_warp_argument("/Warp"));
    assert!(is_warp_argument("-wArP"));
    for arg in ["-warp", "/warp", "-WARP", "/WARP", "-wARp", "/WaRP"] {
        assert_eq!(
            is_warp_argument(arg),
            arg.eq_ignore_ascii_case("-warp") || arg.eq_ignore_ascii_case("/warp")
        );
    }
}

#[test]
fn other_arguments_are_no_warp_flag() {
    for arg in [
        "", "warp", "--warp", "-warp ", " -warp", "-war", "-warpp", "\\warp", "+warp", "-w\u{e4}rp",
        "-warq", "-xarp", "-wbrp", "-wasp", "-\u{17f}arp", "sample.exe",
    ] {
        assert!(!is_warp_argument(arg));
        assert_eq!(
            is_warp_argument(arg),
            arg.eq_ignore_ascii_case("-warp") || arg.eq_ignore_ascii_case("/warp")
        );
    }
}

#[test]
fn command_line_without_the_flag() {
    assert_eq!(build_command_line(&[]), SampleCommandLine { use_warp_device: false });
    assert_eq!(
        build_command_line(&args(&["sample.exe", "-fullscreen"])),
        SampleCommandLine { use_warp_device: false }
    );
}

#[test]
fn command_line_with_the_flag_anywhere() {
    assert!(build_command_line(&args(&["sample.exe", "-warp"])).use_warp_device);
    assert!(build_command_line(&args(&["/WARP", "sample.exe"])).use_warp_device);
    assert!(build_command_line(&args(&["a", "b", "-Warp", "c"])).use_warp_device);
    assert!(build_command_line(&args(&["-warp", "/warp"])).use_warp_device);
}

#[test]
fn title_ends_with_a_zero() {
    let plain = SampleCommandLine { use_warp_device: false };
    assert_eq!(window_title("DXSample".to_string(), &plain), "DXSample\0");
    assert_eq!(window_title(String::new(), &plain), "\0");
}

#[test]
fn title_notes_the_software_rasteriser() {
    let warp = SampleCommandLine { use_warp_device: true };
    assert_eq!(
        window_title("DirectX 12 Raymarching".to_string(), &warp),
        "DirectX 12 Raymarching (WARP)\0"
    );
    assert_eq!(window_title(String::new(), &warp), " (WARP)\0");
}

#[test]
fn software_adapters_are_told_by_their_flag() {
    assert_eq!(DXGI_ADAPTER_FLAG_SOFTWARE, 2);
    assert!(!is_software_adapter(0));
    assert!(!is_software_adapter(1));
    assert!(is_software_adapter(2));
    assert!(is_software_adapter(3));
    assert!(!is_software_adapter(4));
    assert!(is_software_adapter(u32::MAX));
}

#[test]
fn first_usable_hardware_adapter_is_taken() {
    let adapters = [adapter(2, true), adapter(0, false), adapter(1, true), adapter(0, true)];
    assert_eq!(get_hardware_adapter(&adapters), Some(2));
    assert_eq!(get_hardware_adapter(&adapters[..2]), None);
    assert_eq!(get_hardware_adapter(&[adapter(0, true)]), Some(0));
}

#[test]
fn no_adapter_where_none_is_usable() {
    assert_eq!(get_hardware_adapter(&[]), None);
    assert_eq!(get_hardware_adapter(&[adapter(2, true), adapter(3, true)]), None);
    assert_eq!(get_hardware_adapter(&[adapter(0, false)]), None);
}

#[test]
fn constant_buffers_are_multiples_of_256() {
    assert_eq!(CONSTANT_BUFFER_ALIGNMENT, 256);
    assert_eq!(constant_buffer_size(0), 0);
    assert_eq!(constant_buffer_size(1), 256);
    assert_eq!(constant_buffer_size(16), 256);
    assert_eq!(constant_buffer_size(96), 256);
    assert_eq!(constant_buffer_size(255), 256);
    assert_eq!(constant_buffer_size(256), 256);
    assert_eq!(constant_buffer_size(257), 512);
    assert_eq!(constant_buffer_size(usize::MAX - 255), usize::MAX - 255);
}

#[test]
fn heap_slots_lie_in_order() {
    assert_eq!(HEAP_SLOTS, 5);
    assert_eq!(FRAME_COUNT, 2);
    assert_eq!(HeapSlot::Constants.index(), 0);
    assert_eq!(HeapSlot::PositionWrite.index(), 1);
    assert_eq!(HeapSlot::ColorWrite.index(), 2);
    assert_eq!(HeapSlot::PositionRead.index(), 3);
    assert_eq!(HeapSlot::ColorRead.index(), 4);
}

#[test]
fn descriptor_handles_step_by_the_increment() {
    assert_eq!(cpu_descriptor_handle(0x1000, 0, 32), 0x1000);
    assert_eq!(cpu_descriptor_handle(0x1000, 1, 32), 0x1020);
    assert_eq!(cpu_descriptor_handle(0x1000, 4, 32), 0x1080);
    assert_eq!(cpu_descriptor_handle(usize::MAX - 64, 2, 32), usize::MAX);
    assert_eq!(gpu_descriptor_handle(0x8000_0000_0000, HeapSlot::PositionRead.index(), 64), 0x8000_0000_00C0);
    assert_eq!(gpu_descriptor_handle(7, 3, 0), 7);
    assert_eq!(gpu_descriptor_handle(u64::MAX - 10, 5, 2), u64::MAX);
}

#[test]
fn fence_clock_counts_up() {
    let mut clock = FenceClock { fence_value: 1 };
    assert_eq!(clock.advance(), 1);
    assert_eq!(clock.fence_value, 2);
    assert_eq!(clock.advance(), 2);
    assert_eq!(clock.advance(), 3);
    assert_eq!(clock, FenceClock { fence_value: 4 });
}

#[test]
fn host_waits_for_a_value_not_yet_reached() {
    assert!(must_wait(0, 1));
    assert!(!must_wait(1, 1));
    assert!(!must_wait(2, 1));
    assert!(must_wait(u64::MAX - 1, u64::MAX));
}
