use ash::vk;
use voxeller::accel;
use voxeller::engine::{
    api_version, device_features, instance_extensions, instance_layers, required_device_extensions,
};
use voxeller::vulkan;

#[test]
fn raw_values_are_those_of_the_interface() {
    assert_eq!(vulkan::MEMORY_DEVICE_LOCAL, vk::MemoryPropertyFlags::DEVICE_LOCAL.as_raw());
    assert_eq!(vulkan::MEMORY_HOST_VISIBLE, vk::MemoryPropertyFlags::HOST_VISIBLE.as_raw());
    assert_eq!(vulkan::MEMORY_HOST_COHERENT, vk::MemoryPropertyFlags::HOST_COHERENT.as_raw());
    assert_eq!(vulkan::BUFFER_UNIFORM, vk::BufferUsageFlags::UNIFORM_BUFFER.as_raw());
    assert_eq!(vulkan::BUFFER_STORAGE, vk::BufferUsageFlags::STORAGE_BUFFER.as_raw());
    assert_eq!(vulkan::BUFFER_SHADER_BINDING_TABLE, vk::BufferUsageFlags::SHADER_BINDING_TABLE_KHR.as_raw());
    assert_eq!(vulkan::BUFFER_SHADER_DEVICE_ADDRESS, vk::BufferUsageFlags::SHADER_DEVICE_ADDRESS.as_raw());
    assert_eq!(vulkan::BUFFER_ACCEL_BUILD_INPUT, vk::BufferUsageFlags::ACCELERATION_STRUCTURE_BUILD_INPUT_READ_ONLY_KHR.as_raw());
    assert_eq!(vulkan::BUFFER_ACCEL_STORAGE, vk::BufferUsageFlags::ACCELERATION_STRUCTURE_STORAGE_KHR.as_raw());
    assert_eq!(vulkan::QUEUE_GRAPHICS, vk::QueueFlags::GRAPHICS.as_raw());
    assert_eq!(vulkan::QUEUE_COMPUTE, vk::QueueFlags::COMPUTE.as_raw());
    assert_eq!(vulkan::IMAGE_TRANSFER_SRC, vk::ImageUsageFlags::TRANSFER_SRC.as_raw());
    assert_eq!(vulkan::IMAGE_TRANSFER_DST, vk::ImageUsageFlags::TRANSFER_DST.as_raw());
    assert_eq!(vulkan::IMAGE_STORAGE, vk::ImageUsageFlags::STORAGE.as_raw());
    assert_eq!(vulkan::IMAGE_COLOR_ATTACHMENT, vk::ImageUsageFlags::COLOR_ATTACHMENT.as_raw());
    assert_eq!(vulkan::ACCESS_SHADER_WRITE, vk::AccessFlags::SHADER_WRITE.as_raw());
    assert_eq!(vulkan::ACCESS_TRANSFER_READ, vk::AccessFlags::TRANSFER_READ.as_raw());
    assert_eq!(vulkan::ACCESS_TRANSFER_WRITE, vk::AccessFlags::TRANSFER_WRITE.as_raw());
    assert_eq!(vulkan::ACCESS_ACCEL_READ, vk::AccessFlags::ACCELERATION_STRUCTURE_READ_KHR.as_raw());
    assert_eq!(vulkan::ACCESS_ACCEL_WRITE, vk::AccessFlags::ACCELERATION_STRUCTURE_WRITE_KHR.as_raw());
    assert_eq!(vulkan::STAGE_TOP_OF_PIPE, vk::PipelineStageFlags::TOP_OF_PIPE.as_raw());
    assert_eq!(vulkan::STAGE_TRANSFER, vk::PipelineStageFlags::TRANSFER.as_raw());
    assert_eq!(vulkan::STAGE_BOTTOM_OF_PIPE, vk::PipelineStageFlags::BOTTOM_OF_PIPE.as_raw());
    assert_eq!(vulkan::STAGE_RAY_TRACING_SHADER, vk::PipelineStageFlags::RAY_TRACING_SHADER_KHR.as_raw());
    assert_eq!(vulkan::STAGE_ACCEL_BUILD, vk::PipelineStageFlags::ACCELERATION_STRUCTURE_BUILD_KHR.as_raw());
    assert_eq!(vulkan::SHADER_RAYGEN, vk::ShaderStageFlags::RAYGEN_KHR.as_raw());
    assert_eq!(vulkan::SHADER_CLOSEST_HIT, vk::ShaderStageFlags::CLOSEST_HIT_KHR.as_raw());
    assert_eq!(vulkan::SHADER_MISS, vk::ShaderStageFlags::MISS_KHR.as_raw());
    assert_eq!(vulkan::FORMAT_R8G8B8A8_UNORM, vk::Format::R8G8B8A8_UNORM.as_raw());
    assert_eq!(vulkan::FORMAT_B8G8R8A8_SRGB, vk::Format::B8G8R8A8_SRGB.as_raw());
    assert_eq!(vulkan::COLOR_SPACE_SRGB_NONLINEAR, vk::ColorSpaceKHR::SRGB_NONLINEAR.as_raw());
    assert_eq!(vulkan::PRESENT_MAILBOX, vk::PresentModeKHR::MAILBOX.as_raw());
    assert_eq!(vulkan::PRESENT_FIFO, vk::PresentModeKHR::FIFO.as_raw());
    assert_eq!(vulkan::IMAGE_TYPE_2D, vk::ImageType::TYPE_2D.as_raw());
    assert_eq!(vulkan::VIEW_TYPE_2D, vk::ImageViewType::TYPE_2D.as_raw());
    assert_eq!(vulkan::TILING_OPTIMAL, vk::ImageTiling::OPTIMAL.as_raw());
    assert_eq!(vulkan::SAMPLES_1, vk::SampleCountFlags::TYPE_1.as_raw());
    assert_eq!(vulkan::ASPECT_COLOR, vk::ImageAspectFlags::COLOR.as_raw());
    assert_eq!(vulkan::SHARING_EXCLUSIVE, vk::SharingMode::EXCLUSIVE.as_raw());
    assert_eq!(vulkan::COMPOSITE_OPAQUE, vk::CompositeAlphaFlagsKHR::OPAQUE.as_raw());
    assert_eq!(vulkan::FILTER_NEAREST, vk::Filter::NEAREST.as_raw());
    assert_eq!(vulkan::WHOLE_SIZE, vk::WHOLE_SIZE);
    assert_eq!(vulkan::QUEUE_FAMILY_IGNORED, vk::QUEUE_FAMILY_IGNORED);
    assert_eq!(
        accel::INSTANCE_CULL_DISABLE as u32,
        vk::GeometryInstanceFlagsKHR::TRIANGLE_FACING_CULL_DISABLE.as_raw()
    );
    assert_eq!(accel::BOX_STRIDE as usize, std::mem::size_of::<vk::AabbPositionsKHR>());
}

#[test]
fn the_interface_version_is_one_point_three() {
    assert_eq!(api_version(), vk::API_VERSION_1_3);
    assert_eq!(vk::api_version_variant(api_version()), 0);
    assert_eq!(vk::api_version_major(api_version()), 1);
    assert_eq!(vk::api_version_minor(api_version()), 3);
    assert_eq!(vk::api_version_patch(api_version()), 0);
}

#[test]
fn required_extensions_have_their_registered_names() {
    let names = required_device_extensions();
    let registered = [
        ash::khr::swapchain::NAME,
        ash::khr::acceleration_structure::NAME,
        ash::khr::ray_tracing_pipeline::NAME,
        ash::khr::deferred_host_operations::NAME,
    ];
    assert_eq!(names.len(), registered.len());
    for (name, cstr) in names.iter().zip(registered) {
        assert_eq!(name.as_bytes(), cstr.to_bytes());
    }
}

#[test]
fn instances_are_debugged() {
    let window = vec!["VK_KHR_surface".to_string(), "VK_KHR_xlib_surface".to_string()];
    let names = instance_extensions(window);
    assert_eq!(names[..2], ["VK_KHR_surface", "VK_KHR_xlib_surface"]);
    assert_eq!(names.len(), 3);
    assert_eq!(names[2].as_bytes(), ash::ext::debug_utils::NAME.to_bytes());
    assert_eq!(instance_extensions(vec![]), ["VK_EXT_debug_utils"]);
    assert_eq!(instance_layers(), ["VK_LAYER_KHRONOS_validation"]);
}

#[test]
fn devices_trace_rays() {
    let features = device_features();
    assert!(features.buffer_device_address);
    assert!(features.acceleration_structure);
    assert!(features.ray_tracing_pipeline);
}
