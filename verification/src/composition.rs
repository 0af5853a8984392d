//! The layout of the window that shows an OpenGL, a Direct3D 11 and a
//! Vulkan panel side by side, and the way the Vulkan panel's pixels get
//! from the buffer they are read back into to the texture that is shown.

use vstd::prelude::*;
use crate::pixels::{copy_rows, rows_copied, rows_copied_bytewise, rows_fit};

verus! {

/// The width of one panel in pixels.
pub const PANEL_WIDTH: u32 = 320;

/// The height of one panel in pixels.
pub const PANEL_HEIGHT: u32 = 480;

/// The width of the window's client area: three panels.
pub const WINDOW_WIDTH: u32 = PANEL_WIDTH * 3;

/// The bytes one pixel takes.
pub const BYTES_PER_PIXEL: u32 = 4;

/// The bytes one row of a panel takes where the rows are packed.
pub const PANEL_PITCH: u32 = PANEL_WIDTH * BYTES_PER_PIXEL;

/// The bytes of a buffer that holds one panel's pixels, rows packed.
pub const READBACK_BYTES: u32 = PANEL_WIDTH * PANEL_HEIGHT * BYTES_PER_PIXEL;

/// The three panels, from left to right.
#[derive(Clone, Copy, Debug, PartialEq, Eq, Structural)]
pub enum Panel {
    OpenGl,
    Direct3D,
    Vulkan,
}

impl Panel {
    /// The panel's place, counted from the left.
    pub open spec fn place(&self) -> int {
        match self {
            Panel::OpenGl => 0,
            Panel::Direct3D => 1,
            Panel::Vulkan => 2,
        }
    }
}

/// How far from the window's left edge a panel starts.
pub fn panel_offset_x(panel: Panel) -> (x: u32)
    ensures
        x == panel.place() * PANEL_WIDTH,
        x + PANEL_WIDTH <= WINDOW_WIDTH,
{
    match panel {
        Panel::OpenGl => 0,
        Panel::Direct3D => PANEL_WIDTH,
        Panel::Vulkan => PANEL_WIDTH * 2,
    }
}

/// Copies a panel's pixels from the packed buffer they were read back
/// into to a mapped texture whose rows lie `row_pitch` bytes apart.
pub fn copy_panel(src: &[u8], dst: &mut [u8], row_pitch: u32)
    requires
        src@.len() >= READBACK_BYTES,
        rows_fit(
            old(dst)@.len() as int,
            row_pitch as int,
            PANEL_PITCH as int,
            PANEL_HEIGHT as int,
        ),
    ensures
        final(dst)@ == rows_copied(
            src@,
            PANEL_PITCH as int,
            old(dst)@,
            row_pitch as int,
            PANEL_PITCH as int,
            PANEL_HEIGHT as int,
        ),
{
    copy_rows(
        src,
        PANEL_PITCH as usize,
        dst,
        row_pitch as usize,
        PANEL_PITCH as usize,
        PANEL_HEIGHT as usize,
    );
}

/// Where the texture's rows are at least as far apart as a panel's row is
/// long, every byte of the panel arrives in the row and column it came
/// from.
pub proof fn panel_arrives_whole(src: Seq<u8>, dst: Seq<u8>, row_pitch: int)
    requires
        row_pitch >= PANEL_PITCH,
        rows_fit(dst.len() as int, row_pitch, PANEL_PITCH as int, PANEL_HEIGHT as int),
    ensures
        forall|y: int, x: int|
            0 <= y < PANEL_HEIGHT && 0 <= x < PANEL_PITCH ==> #[trigger] rows_copied(
                src,
                PANEL_PITCH as int,
                dst,
                row_pitch,
                PANEL_PITCH as int,
                PANEL_HEIGHT as int,
            )[y * row_pitch + x] == src[#[trigger] (y * (PANEL_PITCH as int)) + x],
{
    rows_copied_bytewise(
        src,
        PANEL_PITCH as int,
        dst,
        row_pitch,
        PANEL_PITCH as int,
        PANEL_HEIGHT as int,
    );
}

} // verus!
