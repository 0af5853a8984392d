//! Packed 32-bit colours, in the byte order Direct3D 9 and GDI+ take them.

use vstd::prelude::*;

verus! {

/// The number whose four bytes are, from the most significant down,
/// `a`, `r`, `g` and `b`.
pub open spec fn argb_value(a: u8, r: u8, g: u8, b: u8) -> int {
    a * 0x100_0000 + r * 0x1_0000 + g * 0x100 + b
}

/// Packs alpha, red, green and blue into one `0xAARRGGBB` word.
pub fn make_argb(a: u8, r: u8, g: u8, b: u8) -> (color: u32)
    ensures
        color == argb_value(a, r, g, b),
{
    let color: u32 = ((a as u32) << 24) | ((r as u32) << 16) | ((g as u32) << 8) | (b as u32);
    assert(((a as u32) << 24) | ((r as u32) << 16) | ((g as u32) << 8) | (b as u32)
        == a * 0x100_0000 + r * 0x1_0000 + g * 0x100 + b) by (bit_vector);
    color
}

/// Packs red, green and blue into an opaque `0xFFRRGGBB` word.
pub fn d3dcolor_xrgb(r: u8, g: u8, b: u8) -> (color: u32)
    ensures
        color == argb_value(0xFF, r, g, b),
{
    let color: u32 = 0xFF000000 | ((r as u32) << 16) | ((g as u32) << 8) | (b as u32);
    assert(0xFF000000u32 | ((r as u32) << 16) | ((g as u32) << 8) | (b as u32)
        == 0xFF * 0x100_0000 + r * 0x1_0000 + g * 0x100 + b) by (bit_vector);
    color
}

/// A packed colour holds its four channels apart: two colours with the same
/// word agree in every channel.
pub proof fn channels_are_kept_apart(a: (u8, u8, u8, u8), b: (u8, u8, u8, u8))
    requires
        argb_value(a.0, a.1, a.2, a.3) == argb_value(b.0, b.1, b.2, b.3),
    ensures
        a == b,
{
}

/// Every packed colour fits a 32-bit word.
pub proof fn packed_colour_fits(a: u8, r: u8, g: u8, b: u8)
    ensures
        0 <= argb_value(a, r, g, b) <= u32::MAX,
{
}

} // verus!
