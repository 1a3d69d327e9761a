//! A verified model of a thin Vulkan rendering layer: GPU resource ownership
//! (buffers, images, descriptors, pipelines) over a sub-allocating memory
//! pool with strict destruction ordering, and a multi-pass bloom compute
//! scheduler that packs its per-dispatch addressing into one 32-bit word.
//!
//! The library holds every decision the engine makes — sizes, alignment,
//! mip arithmetic, dispatch grids, pass ordering, barrier placement, layout
//! transitions, teardown order — as verified code over plain values. The
//! unverifiable driver calls live outside the library and replay the model's
//! decisions on the real device.

pub mod align;
pub mod bloom;
pub mod buffer;
pub mod command_buffer;
pub mod descriptor;
pub mod device;
pub mod engine;
pub mod flags;
pub mod geometry;
pub mod image;
pub mod pipeline;
pub mod push_constant;
pub mod renderpass;
pub mod shader_module;
pub mod surface;
pub mod swapchain;
pub mod sync_objects;
