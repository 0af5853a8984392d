//! The choices that go into a swap chain: surface format, present mode,
//! extent, number of images and how the images are shared between queues.

use vstd::prelude::*;
use crate::vulkan::queue::QueueFamilyIndices;

verus! {

/// `VK_FORMAT_B8G8R8A8_UNORM`.
pub const FORMAT_B8G8R8A8_UNORM: i32 = 44;

/// `VK_FORMAT_B8G8R8A8_SRGB`.
pub const FORMAT_B8G8R8A8_SRGB: i32 = 50;

/// `VK_COLOR_SPACE_SRGB_NONLINEAR_KHR`.
pub const COLOR_SPACE_SRGB_NONLINEAR: i32 = 0;

/// `VK_PRESENT_MODE_MAILBOX_KHR`.
pub const PRESENT_MODE_MAILBOX: i32 = 1;

/// `VK_PRESENT_MODE_FIFO_KHR`.
pub const PRESENT_MODE_FIFO: i32 = 2;

/// A pixel format together with the colour space it is shown in, both as
/// the numbers Vulkan gives them.
#[derive(Clone, Copy, Debug, PartialEq, Eq, Structural)]
pub struct SurfaceFormat {
    pub format: i32,
    pub color_space: i32,
}

/// A width and a height in pixels.
#[derive(Clone, Copy, Debug, PartialEq, Eq, Structural)]
pub struct Extent2D {
    pub width: u32,
    pub height: u32,
}

/// What a program reads of a surface's capabilities.
#[derive(Clone, Copy, Debug, PartialEq, Eq, Structural)]
pub struct SurfaceCapabilities {
    /// The fewest images a swap chain may have.
    pub min_image_count: u32,
    /// The most images a swap chain may have; zero where there is no limit.
    pub max_image_count: u32,
    /// The surface's size, or `u32::MAX` in the width where the swap chain
    /// decides it.
    pub current_extent: Extent2D,
    /// The smallest extent a swap chain may have.
    pub min_image_extent: Extent2D,
    /// The largest extent a swap chain may have.
    pub max_image_extent: Extent2D,
}

/// What a device offers for a surface.
pub struct SwapChainSupportDetails {
    pub capabilities: SurfaceCapabilities,
    pub formats: Vec<SurfaceFormat>,
    pub present_modes: Vec<i32>,
}

/// Whether the swap chain's images belong to one queue family or are
/// shared between two.
#[derive(Clone, Copy, Debug, PartialEq, Eq, Structural)]
pub enum SharingMode {
    Exclusive,
    Concurrent,
}

/// The choices for a swap chain.
#[derive(Clone, Copy, Debug, PartialEq, Eq, Structural)]
pub struct SwapchainPlan {
    pub surface_format: SurfaceFormat,
    pub present_mode: i32,
    pub extent: Extent2D,
    pub image_count: u32,
    pub sharing_mode: SharingMode,
    /// How many queue family indices are handed over with the sharing mode.
    pub queue_family_index_count: u32,
}

/// The first of `formats` that equals `preferred`, and the first of all
/// where none does.
pub open spec fn preferred_or_first(formats: Seq<SurfaceFormat>, preferred: SurfaceFormat)
    -> SurfaceFormat {
    if formats.contains(preferred) {
        preferred
    } else {
        formats[0]
    }
}

/// Picks `preferred` where the surface offers it, and otherwise the first
/// format the surface offers.
pub fn choose_surface_format(formats: &[SurfaceFormat], preferred: SurfaceFormat) -> (chosen:
    SurfaceFormat)
    requires
        formats@.len() > 0,
    ensures
        chosen == preferred_or_first(formats@, preferred),
{
    let mut i: usize = 0;
    while i < formats.len()
        invariant
            i <= formats@.len(),
            forall|j: int| 0 <= j < i ==> formats@[j] != preferred,
        decreases formats@.len() - i,
    {
        let f = formats[i];
        if f.format == preferred.format && f.color_space == preferred.color_space {
            assert(formats@[i as int] == preferred);
            return preferred;
        }
        i += 1;
    }
    formats[0]
}

/// The format the triangle and compute programs prefer: 8-bit BGRA with
/// sRGB encoding, shown in the sRGB colour space.
pub open spec fn srgb_format() -> SurfaceFormat {
    SurfaceFormat { format: FORMAT_B8G8R8A8_SRGB, color_space: COLOR_SPACE_SRGB_NONLINEAR }
}

/// Picks 8-bit BGRA sRGB in the sRGB colour space where the surface offers
/// it, and otherwise the first format the surface offers.
pub fn choose_swap_surface_format(formats: &[SurfaceFormat]) -> (chosen: SurfaceFormat)
    requires
        formats@.len() > 0,
    ensures
        chosen == preferred_or_first(formats@, srgb_format()),
{
    choose_surface_format(
        formats,
        SurfaceFormat { format: FORMAT_B8G8R8A8_SRGB, color_space: COLOR_SPACE_SRGB_NONLINEAR },
    )
}

/// Picks mailbox presentation where the surface offers it, and otherwise
/// first-in-first-out presentation, which every surface offers.
pub fn choose_swap_present_mode(present_modes: &[i32]) -> (chosen: i32)
    ensures
        chosen == if present_modes@.contains(PRESENT_MODE_MAILBOX) {
            PRESENT_MODE_MAILBOX
        } else {
            PRESENT_MODE_FIFO
        },
{
    let mut i: usize = 0;
    while i < present_modes.len()
        invariant
            i <= present_modes@.len(),
            forall|j: int| 0 <= j < i ==> present_modes@[j] != PRESENT_MODE_MAILBOX,
        decreases present_modes@.len() - i,
    {
        if present_modes[i] == PRESENT_MODE_MAILBOX {
            return PRESENT_MODE_MAILBOX;
        }
        i += 1;
    }
    PRESENT_MODE_FIFO
}

/// `value`, brought into the range from `low` to `high`.
pub open spec fn clamped(value: u32, low: u32, high: u32) -> u32 {
    if value < low {
        low
    } else if value > high {
        high
    } else {
        value
    }
}

fn clamp_to(value: u32, low: u32, high: u32) -> (result: u32)
    requires
        low <= high,
    ensures
        result == clamped(value, low, high),
{
    if value < low {
        low
    } else if value > high {
        high
    } else {
        value
    }
}

impl SurfaceCapabilities {
    /// The surface leaves its size to the swap chain.
    pub open spec fn extent_is_free(&self) -> bool {
        self.current_extent.width == u32::MAX
    }

    /// The extent of a swap chain on this surface in a window of size
    /// `window`: the surface's own size where it has one, and otherwise
    /// the window's size brought within the surface's limits.
    pub open spec fn swap_extent(&self, window: Extent2D) -> Extent2D {
        if !self.extent_is_free() {
            self.current_extent
        } else {
            Extent2D {
                width: clamped(
                    window.width,
                    self.min_image_extent.width,
                    self.max_image_extent.width,
                ),
                height: clamped(
                    window.height,
                    self.min_image_extent.height,
                    self.max_image_extent.height,
                ),
            }
        }
    }

    /// One image more than the surface's minimum, but no more than its
    /// maximum where it has one.
    pub open spec fn swap_image_count(&self) -> int {
        if self.max_image_count > 0 && self.min_image_count + 1 > self.max_image_count {
            self.max_image_count as int
        } else {
            self.min_image_count + 1
        }
    }

    /// The limits on the extent are in order wherever they are used.
    pub open spec fn limits_ordered(&self) -> bool {
        self.extent_is_free() ==> {
            &&& self.min_image_extent.width <= self.max_image_extent.width
            &&& self.min_image_extent.height <= self.max_image_extent.height
        }
    }
}

/// The extent of the swap chain's images.
pub fn choose_swap_extent(capabilities: &SurfaceCapabilities, window: Extent2D) -> (extent:
    Extent2D)
    requires
        capabilities.limits_ordered(),
    ensures
        extent == capabilities.swap_extent(window),
{
    if capabilities.current_extent.width != u32::MAX {
        capabilities.current_extent
    } else {
        Extent2D {
            width: clamp_to(
                window.width,
                capabilities.min_image_extent.width,
                capabilities.max_image_extent.width,
            ),
            height: clamp_to(
                window.height,
                capabilities.min_image_extent.height,
                capabilities.max_image_extent.height,
            ),
        }
    }
}

/// The number of images to ask for.
pub fn choose_image_count(capabilities: &SurfaceCapabilities) -> (count: u32)
    requires
        capabilities.min_image_count < u32::MAX,
    ensures
        count == capabilities.swap_image_count(),
{
    let mut image_count: u32 = capabilities.min_image_count + 1;
    if capabilities.max_image_count > 0 && image_count > capabilities.max_image_count {
        image_count = capabilities.max_image_count;
    }
    image_count
}

/// Where the surface leaves the extent free and its limits are in order,
/// the chosen extent lies within them.
pub proof fn free_extent_is_within_limits(capabilities: SurfaceCapabilities, window: Extent2D)
    requires
        capabilities.extent_is_free(),
        capabilities.limits_ordered(),
    ensures
        capabilities.min_image_extent.width <= capabilities.swap_extent(window).width
            <= capabilities.max_image_extent.width,
        capabilities.min_image_extent.height <= capabilities.swap_extent(window).height
            <= capabilities.max_image_extent.height,
{
}

/// The number of images asked for is never nought, and keeps to the
/// surface's maximum where there is one. Where the maximum is not below
/// the minimum, it keeps to the minimum too.
pub proof fn image_count_is_within_limits(capabilities: SurfaceCapabilities)
    ensures
        capabilities.swap_image_count() >= 1,
        capabilities.max_image_count > 0 ==> capabilities.swap_image_count()
            <= capabilities.max_image_count,
        capabilities.max_image_count == 0 || capabilities.max_image_count
            >= capabilities.min_image_count ==> capabilities.swap_image_count()
            >= capabilities.min_image_count,
{
}

/// Images are shared between the graphics and the present family where
/// these are two families, and belong to the one family where they are one.
pub open spec fn sharing_for(indices: QueueFamilyIndices) -> SharingMode {
    if indices.graphics_family != indices.present_family {
        SharingMode::Concurrent
    } else {
        SharingMode::Exclusive
    }
}

/// How the swap chain's images are shared, and how many queue family
/// indices go with that: both families for shared images, none otherwise.
pub fn choose_sharing_mode(indices: &QueueFamilyIndices) -> (sharing: (SharingMode, u32))
    ensures
        sharing.0 == sharing_for(*indices),
        sharing.1 == if sharing.0 == SharingMode::Concurrent {
            2u32
        } else {
            0u32
        },
{
    let same = match (indices.graphics_family, indices.present_family) {
        (Some(g), Some(p)) => g == p,
        (None, None) => true,
        _ => false,
    };
    if !same {
        (SharingMode::Concurrent, 2)
    } else {
        (SharingMode::Exclusive, 0)
    }
}

impl SwapChainSupportDetails {
    /// A swap chain can be planned from these details.
    pub open spec fn plannable(&self) -> bool {
        &&& self.formats@.len() > 0
        &&& self.capabilities.limits_ordered()
        &&& self.capabilities.min_image_count < u32::MAX
    }
}

/// All the choices for a swap chain at once, with `preferred` as the
/// surface format to look for. Where the program does not share images,
/// they belong to one queue family whatever the families are.
pub fn plan_swapchain(
    details: &SwapChainSupportDetails,
    indices: &QueueFamilyIndices,
    window: Extent2D,
    preferred: SurfaceFormat,
    shares_images: bool,
) -> (plan: SwapchainPlan)
    requires
        details.plannable(),
    ensures
        plan.surface_format == preferred_or_first(details.formats@, preferred),
        plan.present_mode == if details.present_modes@.contains(PRESENT_MODE_MAILBOX) {
            PRESENT_MODE_MAILBOX
        } else {
            PRESENT_MODE_FIFO
        },
        plan.extent == details.capabilities.swap_extent(window),
        plan.image_count == details.capabilities.swap_image_count(),
        plan.sharing_mode == if shares_images {
            sharing_for(*indices)
        } else {
            SharingMode::Exclusive
        },
        plan.queue_family_index_count == if plan.sharing_mode == SharingMode::Concurrent {
            2u32
        } else {
            0u32
        },
{
    let surface_format = choose_surface_format(details.formats.as_slice(), preferred);
    let present_mode: i32 = choose_swap_present_mode(details.present_modes.as_slice());
    let extent = choose_swap_extent(&details.capabilities, window);
    let image_count: u32 = choose_image_count(&details.capabilities);
    let (sharing_mode, queue_family_index_count) = if shares_images {
        choose_sharing_mode(indices)
    } else {
        (SharingMode::Exclusive, 0)
    };
    SwapchainPlan {
        surface_format,
        present_mode,
        extent,
        image_count,
        sharing_mode,
        queue_family_index_count,
    }
}

} // verus!
