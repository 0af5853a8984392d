use hello_samples::composition::{
    copy_panel, panel_offset_x, Panel, BYTES_PER_PIXEL, PANEL_HEIGHT, PANEL_PITCH, PANEL_WIDTH,
    READBACK_BYTES, WINDOW_WIDTH,
};

#[test]
fn window_holds_three_panels() {
    assert_eq!(PANEL_WIDTH, 320);
    assert_eq!(PANEL_HEIGHT, 480);
    assert_eq!(WINDOW_WIDTH, 960);
    assert_eq!(BYTES_PER_PIXEL, 4);
    assert_eq!(PANEL_PITCH, 1280);
    assert_eq!(READBACK_BYTES, 614_400);
}

#[test]
fn panels_lie_side_by_side() {
    assert_eq!(panel_offset_x(Panel::OpenGl), 0);
    assert_eq!(panel_offset_x(Panel::Direct3D), 320);
    assert_eq!(panel_offset_x(Panel::Vulkan), 640);
}

fn pixel(x: usize, y: usize, channel: usize) -> u8 {
    ((x * 7 + y * 13 + channel * 3) % 251) as u8
}

#[test]
fn panel_is_copied_row_by_row() {
    let width = PANEL_WIDTH as usize;
    let height = PANEL_HEIGHT as usize;
    let pitch = PANEL_PITCH as usize;
    let mut src = vec![0u8; READBACK_BYTES as usize];
    for y in 0..height {
        for x in 0..width {
            for c in 0..4 {
                src[y * pitch + x * 4 + c] = pixel(x, y, c);
            }
        }
    }
    let row_pitch = 1536usize;
    let mut dst = vec![0xEEu8; row_pitch * height];
    copy_panel(&src, &mut dst, row_pitch as u32);
    for y in 0..height {
        for x in 0..width {
            for c in 0..4 {
                assert_eq!(dst[y * row_pitch + x * 4 + c], pixel(x, y, c));
            }
        }
        for i in pitch..row_pitch {
            assert_eq!(dst[y * row_pitch + i], 0xEE);
        }
    }
}

#[test]
fn packed_panel_is_copied_whole() {
    let src: Vec<u8> = (0..READBACK_BYTES).map(|i| (i % 253) as u8).collect();
    let mut dst = vec![0u8; READBACK_BYTES as usize];
    copy_panel(&src, &mut dst, PANEL_PITCH);
    assert_eq!(dst, src);
}
