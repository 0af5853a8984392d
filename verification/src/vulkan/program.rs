//! What sets the three Vulkan programs apart, as far as it bears on the
//! choices this library makes: a triangle, a harmonograph that the device
//! computes, and a scene that a fragment shader marches rays through.

use vstd::prelude::*;
use crate::vulkan::flags::{QUEUE_COMPUTE, QUEUE_GRAPHICS};
use crate::vulkan::frame::MAX_FRAMES_IN_FLIGHT;
use crate::vulkan::queue::{
    distinct_pair, distinct_queue_families, sorted_pair, unique_queue_families,
    QueueFamilyIndices,
};
use crate::vulkan::swapchain::{
    SurfaceFormat, COLOR_SPACE_SRGB_NONLINEAR, FORMAT_B8G8R8A8_SRGB, FORMAT_B8G8R8A8_UNORM,
};

verus! {

/// One of the Vulkan programs.
#[derive(Clone, Copy, Debug, PartialEq, Eq, Structural)]
pub enum Program {
    /// One triangle with a colour at each corner.
    Triangle,
    /// A harmonograph curve computed on the device and drawn as points.
    Harmonograph,
    /// A scene drawn by marching rays in the fragment shader.
    RayMarching,
}

impl Program {
    /// The capabilities the program's drawing queue must have: the
    /// harmonograph computes on the queue it draws with.
    pub open spec fn wanted_flags(&self) -> u32 {
        match self {
            Program::Harmonograph => QUEUE_GRAPHICS | QUEUE_COMPUTE,
            _ => QUEUE_GRAPHICS,
        }
    }

    /// The surface format the program likes best: 8-bit BGRA in the sRGB
    /// colour space, with sRGB encoding except for the ray marcher, whose
    /// shader does the encoding itself.
    pub open spec fn liked_format(&self) -> SurfaceFormat {
        SurfaceFormat {
            format: if self == Program::RayMarching {
                FORMAT_B8G8R8A8_UNORM
            } else {
                FORMAT_B8G8R8A8_SRGB
            },
            color_space: COLOR_SPACE_SRGB_NONLINEAR,
        }
    }

    /// The capabilities the program's drawing queue must have.
    pub fn queue_flags(&self) -> (flags: u32)
        ensures
            flags == self.wanted_flags(),
    {
        match self {
            Program::Harmonograph => QUEUE_GRAPHICS | QUEUE_COMPUTE,
            _ => QUEUE_GRAPHICS,
        }
    }

    /// The surface format the program likes best.
    pub fn preferred_format(&self) -> (preferred: SurfaceFormat)
        ensures
            preferred == self.liked_format(),
    {
        let format: i32 = match self {
            Program::RayMarching => FORMAT_B8G8R8A8_UNORM,
            _ => FORMAT_B8G8R8A8_SRGB,
        };
        SurfaceFormat { format, color_space: COLOR_SPACE_SRGB_NONLINEAR }
    }

    /// Whether the program sets Vulkan up plainly, as the ray marcher
    /// does: its device gets no validation layers of its own, its queues
    /// are asked for in the order graphics, present, and its swap chain's
    /// images always belong to one queue family.
    pub fn plain_setup(&self) -> (plain: bool)
        ensures
            plain == (self == Program::RayMarching),
    {
        match self {
            Program::RayMarching => true,
            _ => false,
        }
    }

    /// Whether the commands are recorded anew for every frame. Only the
    /// triangle's never change.
    pub fn records_every_frame(&self) -> (every_frame: bool)
        ensures
            every_frame == (self != Program::Triangle),
    {
        match self {
            Program::Triangle => false,
            _ => true,
        }
    }

    /// How many command buffers the program allocates for a swap chain
    /// with `framebuffers` framebuffers: the harmonograph one for each
    /// frame in flight, the others one for each framebuffer.
    pub fn command_buffer_count(&self, framebuffers: usize) -> (count: usize)
        ensures
            count == if self == Program::Harmonograph {
                MAX_FRAMES_IN_FLIGHT
            } else {
                framebuffers
            },
    {
        match self {
            Program::Harmonograph => MAX_FRAMES_IN_FLIGHT,
            _ => framebuffers,
        }
    }

    /// Which command buffer draws frame `frame` into image `image_index`.
    pub fn command_buffer_index(&self, frame: usize, image_index: u32) -> (index: usize)
        ensures
            index == if self == Program::Harmonograph {
                frame as int
            } else {
                image_index as int
            },
    {
        match self {
            Program::Harmonograph => frame,
            _ => image_index as usize,
        }
    }

    /// The queue families the program's device gets a queue of: sorted,
    /// or with the graphics family first where the set-up is plain.
    pub fn queue_families(&self, indices: &QueueFamilyIndices) -> (families: Vec<u32>)
        requires
            indices.complete(),
        ensures
            families@ == if self == Program::RayMarching {
                distinct_pair(indices.graphics_family->0, indices.present_family->0)
            } else {
                sorted_pair(indices.graphics_family->0, indices.present_family->0)
            },
    {
        if self.plain_setup() {
            distinct_queue_families(indices)
        } else {
            unique_queue_families(indices)
        }
    }
}

} // verus!
