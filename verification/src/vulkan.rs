//! The helpers of the `ash` crate that the engine's decisions rest on, together with the raw
//! values of the Vulkan flags that those decisions use.
//!
//! Flags cross this boundary as their raw bits, so that contracts can speak of them as integers.

use vstd::prelude::*;

verus! {

/// Every flag set in `required` is set in `flags`.
pub open spec fn contains_flags(flags: u32, required: u32) -> bool {
    flags & required == required
}

/// Flags that contain the required ones have each required bit set; all flags contain themselves, and
/// any flags contain none.
pub proof fn law_contains_flags(flags: u32, required: u32, bit: u32)
    requires
        bit < 32,
        contains_flags(flags, required),
    ensures
        required & (1u32 << bit) != 0 ==> flags & (1u32 << bit) != 0,
        contains_flags(flags, 0),
        contains_flags(flags, flags),
{
    assert(required & (1u32 << bit) != 0 ==> flags & (1u32 << bit) != 0) by (bit_vector)
        requires
            flags & required == required,
            bit < 32,
    ;
    assert(flags & 0 == 0) by (bit_vector);
    assert(flags & flags == flags) by (bit_vector);
}

/// Calls `ash::vk::MemoryPropertyFlags::contains`.
///
/// Claimed of it: it tells whether every bit of the argument is set in the receiver.
#[verifier::external_body]
pub(crate) fn memory_flags_contain(flags: u32, required: u32) -> (r: bool)
    ensures
        r == contains_flags(flags, required),
{
    ash::vk::MemoryPropertyFlags::from_raw(flags).contains(
        ash::vk::MemoryPropertyFlags::from_raw(required),
    )
}

/// Calls `ash::vk::make_api_version`.
///
/// Claimed of it: the four numbers are packed by shifting them to bits 29, 22, 12 and 0.
pub assume_specification[ ash::vk::make_api_version ](
    variant: u32,
    major: u32,
    minor: u32,
    patch: u32,
) -> (version: u32)
    ensures
        version == (variant << 29) | (major << 22) | (minor << 12) | patch,
;

/// Calls `ash::vk::QueueFlags::contains`.
///
/// Claimed of it: it tells whether every bit of the argument is set in the receiver.
#[verifier::external_body]
pub(crate) fn queue_flags_contain(flags: u32, required: u32) -> (r: bool)
    ensures
        r == contains_flags(flags, required),
{
    ash::vk::QueueFlags::from_raw(flags).contains(ash::vk::QueueFlags::from_raw(required))
}

/// Calls `ash::vk::BufferUsageFlags::contains`.
///
/// Claimed of it: it tells whether every bit of the argument is set in the receiver.
#[verifier::external_body]
pub(crate) fn buffer_usage_contains(flags: u32, required: u32) -> (r: bool)
    ensures
        r == contains_flags(flags, required),
{
    ash::vk::BufferUsageFlags::from_raw(flags).contains(
        ash::vk::BufferUsageFlags::from_raw(required),
    )
}

/// Calls `ash::vk::Packed24_8::new` and reads its two parts back with `low_24` and `high_8`.
///
/// Claimed of them: the lower part keeps the lowest 24 bits of the first number, the upper part is
/// the second number.
#[verifier::external_body]
pub(crate) fn pack_24_8(low: u32, high: u8) -> (parts: (u32, u8))
    ensures
        parts.0 == low & 0x00FF_FFFF,
        parts.1 == high,
{
    let packed = ash::vk::Packed24_8::new(low, high);
    (packed.low_24(), packed.high_8())
}

/// Memory that is local to the device.
pub const MEMORY_DEVICE_LOCAL: u32 = 0x1;

/// Memory that the host can map.
pub const MEMORY_HOST_VISIBLE: u32 = 0x2;

/// Memory that needs no flushing by the host.
pub const MEMORY_HOST_COHERENT: u32 = 0x4;

pub const BUFFER_UNIFORM: u32 = 0x10;

pub const BUFFER_STORAGE: u32 = 0x20;

pub const BUFFER_SHADER_BINDING_TABLE: u32 = 0x400;

pub const BUFFER_SHADER_DEVICE_ADDRESS: u32 = 0x2_0000;

pub const BUFFER_ACCEL_BUILD_INPUT: u32 = 0x8_0000;

pub const BUFFER_ACCEL_STORAGE: u32 = 0x10_0000;

pub const QUEUE_GRAPHICS: u32 = 0x1;

pub const QUEUE_COMPUTE: u32 = 0x2;

pub const IMAGE_TRANSFER_SRC: u32 = 0x1;

pub const IMAGE_TRANSFER_DST: u32 = 0x2;

pub const IMAGE_STORAGE: u32 = 0x8;

pub const IMAGE_COLOR_ATTACHMENT: u32 = 0x10;

pub const ACCESS_SHADER_WRITE: u32 = 0x40;

pub const ACCESS_TRANSFER_READ: u32 = 0x800;

pub const ACCESS_TRANSFER_WRITE: u32 = 0x1000;

pub const ACCESS_ACCEL_READ: u32 = 0x20_0000;

pub const ACCESS_ACCEL_WRITE: u32 = 0x40_0000;

pub const STAGE_TOP_OF_PIPE: u32 = 0x1;

pub const STAGE_TRANSFER: u32 = 0x1000;

pub const STAGE_BOTTOM_OF_PIPE: u32 = 0x2000;

pub const STAGE_RAY_TRACING_SHADER: u32 = 0x20_0000;

pub const STAGE_ACCEL_BUILD: u32 = 0x200_0000;

pub const SHADER_RAYGEN: u32 = 0x100;

pub const SHADER_CLOSEST_HIT: u32 = 0x400;

pub const SHADER_MISS: u32 = 0x800;

pub const FORMAT_R8G8B8A8_UNORM: i32 = 37;

pub const FORMAT_B8G8R8A8_SRGB: i32 = 50;

pub const COLOR_SPACE_SRGB_NONLINEAR: i32 = 0;

pub const PRESENT_MAILBOX: i32 = 1;

pub const PRESENT_FIFO: i32 = 2;

pub const IMAGE_TYPE_2D: i32 = 1;

pub const VIEW_TYPE_2D: i32 = 1;

pub const TILING_OPTIMAL: i32 = 0;

pub const SAMPLES_1: u32 = 0x1;

pub const ASPECT_COLOR: u32 = 0x1;

pub const SHARING_EXCLUSIVE: i32 = 0;

pub const COMPOSITE_OPAQUE: u32 = 0x1;

pub const FILTER_NEAREST: i32 = 0;

/// The queue family of a barrier that does not hand its image over to another family.
pub const QUEUE_FAMILY_IGNORED: u32 = 0xFFFF_FFFF;

/// The length of a range that reaches to the end of its buffer.
pub const WHOLE_SIZE: u64 = 0xFFFF_FFFF_FFFF_FFFF;

} // verus!
