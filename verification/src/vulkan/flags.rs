//! Bit masks of the Vulkan API, as raw `u32` values.

use vstd::prelude::*;

verus! {

/// `VK_QUEUE_GRAPHICS_BIT`.
pub const QUEUE_GRAPHICS: u32 = 0x1;

/// `VK_QUEUE_COMPUTE_BIT`.
pub const QUEUE_COMPUTE: u32 = 0x2;

/// `VK_MEMORY_PROPERTY_DEVICE_LOCAL_BIT`.
pub const MEMORY_DEVICE_LOCAL: u32 = 0x1;

/// `VK_MEMORY_PROPERTY_HOST_VISIBLE_BIT`.
pub const MEMORY_HOST_VISIBLE: u32 = 0x2;

/// `VK_MEMORY_PROPERTY_HOST_COHERENT_BIT`.
pub const MEMORY_HOST_COHERENT: u32 = 0x4;

/// Every bit of `wanted` is set in `flags`.
pub open spec fn flags_contain(flags: u32, wanted: u32) -> bool {
    flags & wanted == wanted
}

/// Calls `ash::vk::QueueFlags::contains` on the two masks. Trusted: the
/// result is taken to be true exactly when every bit of `wanted` is set in
/// `flags`, which is how ash defines `contains` for all its flag types
/// (`self.0 & other.0 == other.0`).
#[verifier::external_body]
pub(crate) fn queue_flags_contain(flags: u32, wanted: u32) -> (contained: bool)
    ensures
        contained == flags_contain(flags, wanted),
{
    ash::vk::QueueFlags::from_raw(flags).contains(ash::vk::QueueFlags::from_raw(wanted))
}

/// Calls `ash::vk::MemoryPropertyFlags::contains` on the two masks.
/// Trusted: the result is taken to be true exactly when every bit of
/// `wanted` is set in `flags` (`self.0 & other.0 == other.0` in ash).
#[verifier::external_body]
pub(crate) fn memory_flags_contain(flags: u32, wanted: u32) -> (contained: bool)
    ensures
        contained == flags_contain(flags, wanted),
{
    ash::vk::MemoryPropertyFlags::from_raw(flags).contains(
        ash::vk::MemoryPropertyFlags::from_raw(wanted),
    )
}

} // verus!
