//! The host-side decisions of a set of small graphics programs, as verified
//! functions on plain values.
//!
//! - [`vulkan`]: which device and queue families to use, how to set up the
//!   swap chain, which memory type a buffer gets, and what to do after each
//!   step of drawing a frame.
//! - [`direct3d12`] and [`harmonograph`]: the command line, the window
//!   title, the choice of an adapter, descriptor heaps, constant buffers,
//!   the fence, thread groups and the random walk of the harmonograph.
//! - [`win32`]: what window procedures and message loops do, message by
//!   message.
//! - [`composition`] and [`pixels`]: the layout of a window of three
//!   panels, and copies between images whose rows lie at different
//!   distances.
//! - [`spirv`], [`color`], [`triangle`] and [`webgl`]: SPIR-V words, packed
//!   colours, the corners of a triangle in a window, and the values that
//!   pass between a WebGL program and its host.
//!
//! Nothing here opens a window or talks to a driver. A program queries the
//! system, hands the answers to these functions and carries out what they
//! return.

pub mod color;
pub mod composition;
pub mod direct3d12;
pub mod harmonograph;
pub mod pixels;
pub mod spirv;
pub mod triangle;
pub mod vulkan;
pub mod webgl;
pub mod win32;
