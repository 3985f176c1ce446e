//! Why the engine cannot be set up.

use vstd::prelude::*;

verus! {

#[derive(Clone, Copy, Debug, PartialEq, Eq, Structural)]
pub enum EngineError {
    /// No memory type has the required properties.
    NoMemoryType,
    /// No physical device offers the required extensions.
    NoDevice,
    /// No queue family can do both graphics and compute work.
    NoQueueFamily,
}

impl EngineError {
    /// The text that is shown for the error.
    pub fn message(&self) -> (text: &'static str)
        ensures
            text@ == (match *self {
                EngineError::NoMemoryType => "No suitable memory type found"@,
                EngineError::NoDevice => "No GPU with Vulkan raytracing support found.\nRequired extensions: VK_KHR_acceleration_structure, VK_KHR_ray_tracing_pipeline.\n(MoltenVK on macOS does NOT support these.)"@,
                EngineError::NoQueueFamily => "No suitable queue family"@,
            }),
    {
        match self {
            EngineError::NoMemoryType => "No suitable memory type found",
            EngineError::NoDevice => "No GPU with Vulkan raytracing support found.\nRequired extensions: VK_KHR_acceleration_structure, VK_KHR_ray_tracing_pipeline.\n(MoltenVK on macOS does NOT support these.)",
            EngineError::NoQueueFamily => "No suitable queue family",
        }
    }
}

} // verus!
