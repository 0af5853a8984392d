//! Packed Vulkan API version numbers.

use vstd::prelude::*;

verus! {

/// A version number as Vulkan packs it: three bits of variant, seven of
/// major, ten of minor and twelve of patch, from the top down. Bits of a
/// part that do not fit its field spill into the fields above it or are
/// lost, as the shifts leave them.
pub open spec fn packed_version(variant: u32, major: u32, minor: u32, patch: u32) -> u32 {
    (variant << 29u32) | (major << 22u32) | (minor << 12u32) | patch
}

/// Calls `ash::vk::make_api_version`. Trusted: the result is taken to be
/// `(variant << 29) | (major << 22) | (minor << 12) | patch` in 32-bit
/// arithmetic, which is the function's whole body in ash.
#[verifier::external_body]
pub(crate) fn make_api_version(variant: u32, major: u32, minor: u32, patch: u32) -> (version: u32)
    ensures
        version == packed_version(variant, major, minor, patch),
{
    ash::vk::make_api_version(variant, major, minor, patch)
}

/// The packed number of version `major.minor` with variant and patch zero.
fn api_version(major: u32, minor: u32) -> (version: u32)
    requires
        major < 128,
        minor < 1024,
    ensures
        version == major * 0x40_0000 + minor * 0x1000,
{
    let version: u32 = make_api_version(0, major, minor, 0);
    assert((0u32 << 29u32) | (major << 22u32) | (minor << 12u32) | 0u32 == major * 0x40_0000
        + minor * 0x1000) by (bit_vector)
        requires
            major < 128,
            minor < 1024,
    ;
    version
}

/// Vulkan 1.4, which the triangle, compute and ray-marching programs ask for.
pub fn api_version_1_4() -> (version: u32)
    ensures
        version == 0x0040_4000,
{
    api_version(1, 4)
}

/// Vulkan 1.3, which the off-screen panel asks for.
pub fn api_version_1_3() -> (version: u32)
    ensures
        version == 0x0040_3000,
{
    api_version(1, 3)
}

/// Version 1.0.0 of an application or engine.
pub fn app_version_1_0() -> (version: u32)
    ensures
        version == 0x0040_0000,
{
    api_version(1, 0)
}

} // verus!
