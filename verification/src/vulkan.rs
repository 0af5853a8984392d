//! What a Vulkan program decides on the host: which device and queue
//! families to use, how to set up the swap chain, which memory type a
//! buffer gets, and what to do after each step of drawing a frame.

pub mod device;
pub mod flags;
pub mod frame;
pub mod memory;
pub mod program;
pub mod queue;
pub mod swapchain;
pub mod version;
