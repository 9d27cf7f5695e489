//! Verified core of a small Vulkan voxel renderer: chunk mesh generation,
//! memory-type and queue selection, swapchain configuration, per-frame draw
//! planning, texture discovery and SPIR-V decoding.  Everything that talks to
//! the GPU, the window system or the file system lives in the application
//! crate, which feeds plain values into these functions.

pub mod device;
pub mod input;
pub mod memory;
pub mod mesh;
pub mod pipeline;
pub mod renderer;
pub mod spirv;
pub mod swapchain;
pub mod texture;
pub mod timing;
pub mod sync_objects;
