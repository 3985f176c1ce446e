//! Verified core of the Voxeller ray-tracing engine.

pub mod accel;
pub mod backend;
pub mod engine;
pub mod error;
pub mod host;
pub mod memory;
pub mod mesh;
pub mod metal;
pub mod noise;
pub mod pipeline;
pub mod swapchain;
pub mod terrain;
pub mod voxel;
pub mod vulkan;
