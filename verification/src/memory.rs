//! Decisions about buffers and images: alignment, their memory and how images are made.

use crate::engine::ImageLayout;
use crate::error::EngineError;
use crate::swapchain::Extent;
use crate::vulkan::{
    buffer_usage_contains, memory_flags_contain, ASPECT_COLOR, BUFFER_SHADER_DEVICE_ADDRESS,
    IMAGE_TYPE_2D, MEMORY_DEVICE_LOCAL, MEMORY_HOST_COHERENT, MEMORY_HOST_VISIBLE, SAMPLES_1,
    SHARING_EXCLUSIVE, TILING_OPTIMAL, VIEW_TYPE_2D,
};
use vstd::prelude::*;

verus! {

/// `value` rounded up by the bit mask of `align`.
pub open spec fn align_up_spec(value: usize, align: usize) -> usize {
    ((value + align - 1) as usize) & !((align - 1) as usize)
}

/// `align` is a power of two.
pub open spec fn is_power_of_two(align: int) -> bool {
    exists|n: nat| align == #[trigger] vstd::arithmetic::power2::pow2(n)
}

/// Rounding up to a power of two gives the smallest multiple of it that is not below the value.
pub proof fn law_align_up(value: usize, align: usize)
    requires
        is_power_of_two(align as int),
        value + align <= usize::MAX,
    ensures
        align_up_spec(value, align) as int % align as int == 0,
        value <= align_up_spec(value, align) < value + align,
{
    let n = choose|n: nat| align as int == #[trigger] vstd::arithmetic::power2::pow2(n);
    vstd::arithmetic::power2::lemma_pow2_pos(n);
    assert(n < usize::BITS) by {
        if n >= usize::BITS {
            if usize::BITS < n {
                vstd::arithmetic::power2::lemma_pow2_strictly_increases(usize::BITS as nat, n);
            }
            vstd::arithmetic::power2::lemma2_to64();
            vstd::arithmetic::power2::lemma2_to64_rest();
        }
    }
    let v = (value + align - 1) as usize;
    let mask = (align - 1) as usize;
    vstd::bits::lemma_usize_low_bits_mask_is_mod(v, n);
    assert(vstd::bits::low_bits_mask(n) == mask);
    assert(v & mask == v as int % align as int);
    assert((v & !mask) + (v & mask) == v) by (bit_vector);
    let r = v as int % align as int;
    vstd::arithmetic::div_mod::lemma_fundamental_div_mod(v as int, align as int);
    vstd::arithmetic::div_mod::lemma_mod_multiples_basic(v as int / align as int, align as int);
    vstd::arithmetic::mul::lemma_mul_is_commutative(v as int / align as int, align as int);
}

/// Whatever the alignment, rounding clears exactly those bits of `value + align - 1` that are set in
/// `align - 1`.
pub proof fn law_mask_rounding(value: usize, align: usize)
    requires
        align > 0,
        value + align <= usize::MAX,
    ensures
        align_up_spec(value, align) & ((align - 1) as usize) == 0,
        align_up_spec(value, align) + (((value + align - 1) as usize) & ((align - 1) as usize))
            == value + align - 1,
{
    let v = (value + align - 1) as usize;
    let mask = (align - 1) as usize;
    assert((v & !mask) & mask == 0) by (bit_vector);
    assert((v & !mask) + (v & mask) == v) by (bit_vector);
}

/// Rounds `value` up to a multiple of `align`.
pub fn align_up(value: usize, align: usize) -> (r: usize)
    requires
        align > 0,
        value + align <= usize::MAX,
    ensures
        r == align_up_spec(value, align),
        is_power_of_two(align as int) ==> r as int % align as int == 0 && value <= r < value
            + align,
        r & ((align - 1) as usize) == 0,
        r + (((value + align - 1) as usize) & ((align - 1) as usize)) == value + align - 1,
{
    proof {
        law_mask_rounding(value, align);
        if is_power_of_two(align as int) {
            law_align_up(value, align);
        }
    }
    (value + align - 1) & !(align - 1)
}

/// Memory type `i` is among those in `type_bits` and has all the required properties.
pub open spec fn suitable(type_bits: u32, required: u32, types: Seq<u32>, i: int) -> bool {
    &&& type_bits & (1u32 << (i as u32)) != 0
    &&& crate::vulkan::contains_flags(types[i], required)
}

/// Memory type `i` is the first suitable one.
pub open spec fn first_suitable(type_bits: u32, required: u32, types: Seq<u32>, i: int) -> bool {
    &&& 0 <= i < types.len()
    &&& suitable(type_bits, required, types, i)
    &&& forall|j: int| 0 <= j < i ==> !suitable(type_bits, required, types, j)
}

/// No memory type is suitable.
pub open spec fn none_suitable(type_bits: u32, required: u32, types: Seq<u32>) -> bool {
    forall|j: int| 0 <= j < types.len() ==> !suitable(type_bits, required, types, j)
}

/// A memory type is suitable exactly if its bit is set and none of the required properties is
/// missing.
pub proof fn law_suitable(type_bits: u32, required: u32, types: Seq<u32>)
    ensures
        forall|i: u32|
            #![trigger types[i as int]]
            suitable(type_bits, required, types, i as int) <==> type_bits & (1u32 << i) != 0
                && types[i as int] & required == required,
        forall|i: u32|
            #![trigger types[i as int]]
            suitable(type_bits, required, types, i as int) ==> required & !types[i as int] == 0,
{
    assert forall|i: u32|
        #![trigger types[i as int]]
        suitable(type_bits, required, types, i as int) implies required & !types[i as int] == 0 by {
        let flags = types[i as int];
        assert(required & !flags == 0) by (bit_vector)
            requires
                flags & required == required,
        ;
    }
}

/// Finds a memory type index matching `type_bits` and the `required` property flags. The
/// property flags of the device's memory types are given in `types`.
pub fn find_memory_type(type_bits: u32, required: u32, types: &[u32]) -> (r: Result<
    u32,
    EngineError,
>)
    requires
        types@.len() <= 32,
    ensures
        match r {
            Ok(i) => first_suitable(type_bits, required, types@, i as int),
            Err(e) => e == EngineError::NoMemoryType && none_suitable(type_bits, required, types@),
        },
        r matches Ok(i) ==> {
            &&& i < types@.len()
            &&& type_bits & (1u32 << i) != 0
            &&& types@[i as int] & required == required
            &&& forall|j: u32|
                #![trigger types@[j as int]]
                j < i ==> type_bits & (1u32 << j) == 0 || types@[j as int] & required != required
        },
        r is Err ==> forall|j: u32|
            #![trigger types@[j as int]]
            j < types@.len() ==> type_bits & (1u32 << j) == 0 || types@[j as int] & required
                != required,
{
    let mut i: u32 = 0;
    while i < types.len() as u32
        invariant
            types@.len() <= 32,
            i <= types@.len(),
            forall|j: int| 0 <= j < i ==> !suitable(type_bits, required, types@, j),
        decreases types@.len() - i,
    {
        if (type_bits & (1u32 << i)) != 0 && memory_flags_contain(types[i as usize], required) {
            proof {
                law_suitable(type_bits, required, types@);
            }
            return Ok(i);
        }
        i += 1;
    }
    proof {
        law_suitable(type_bits, required, types@);
    }
    Err(EngineError::NoMemoryType)
}

/// Asking for fewer properties, or among more memory types, never loses a memory type and never
/// makes a later one come first.
pub proof fn law_weaker_demands_suffice(
    type_bits: u32,
    wider_bits: u32,
    more: u32,
    fewer: u32,
    types: Seq<u32>,
    i: int,
)
    requires
        crate::vulkan::contains_flags(wider_bits, type_bits),
        crate::vulkan::contains_flags(more, fewer),
        first_suitable(type_bits, more, types, i),
    ensures
        !none_suitable(wider_bits, fewer, types),
        forall|j: int| first_suitable(wider_bits, fewer, types, j) ==> j <= i,
{
    let flags = types[i];
    let bit = 1u32 << (i as u32);
    assert(flags & fewer == fewer) by (bit_vector)
        requires
            flags & more == more,
            more & fewer == fewer,
    ;
    assert(wider_bits & bit != 0) by (bit_vector)
        requires
            type_bits & bit != 0,
            wider_bits & type_bits == type_bits,
    ;
    assert(suitable(wider_bits, fewer, types, i));
}

/// A buffer to create: its size in bytes, its usage and the properties of its memory.
#[derive(Clone, Copy, Debug, PartialEq, Eq, Structural)]
pub struct BufferRequest {
    pub size: u64,
    pub usage: u32,
    pub memory: u32,
}

/// What a created buffer or image demands of its memory.
#[derive(Clone, Copy, Debug, PartialEq, Eq, Structural)]
pub struct MemoryRequirements {
    pub size: u64,
    pub type_bits: u32,
}

/// The memory to allocate for a buffer or an image.
#[derive(Clone, Copy, Debug, PartialEq, Eq, Structural)]
pub struct Allocation {
    pub size: u64,
    pub memory_type: u32,
    /// The memory must have an address on the device.
    pub device_address: bool,
}

/// Decides on the memory behind a buffer.
///
/// A usage with the device-address flag makes the memory addressable on the device.
pub fn create_buffer(request: &BufferRequest, needs: MemoryRequirements, types: &[u32]) -> (r:
    Result<Allocation, EngineError>)
    requires
        types@.len() <= 32,
    ensures
        match r {
            Ok(a) => {
                &&& a.size == needs.size
                &&& first_suitable(
                    needs.type_bits,
                    request.memory,
                    types@,
                    a.memory_type as int,
                )
                &&& a.device_address == crate::vulkan::contains_flags(
                    request.usage,
                    BUFFER_SHADER_DEVICE_ADDRESS,
                )
            },
            Err(e) => e == EngineError::NoMemoryType && none_suitable(
                needs.type_bits,
                request.memory,
                types@,
            ),
        },
        r matches Ok(a) ==> {
            &&& a.memory_type < types@.len()
            &&& needs.type_bits & (1u32 << a.memory_type) != 0
            &&& types@[a.memory_type as int] & request.memory == request.memory
            &&& a.device_address <==> request.usage & 0x2_0000 == 0x2_0000
            &&& forall|j: u32|
                #![trigger types@[j as int]]
                j < a.memory_type ==> needs.type_bits & (1u32 << j) == 0 || types@[j as int]
                    & request.memory != request.memory
        },
        r is Err ==> forall|j: u32|
            #![trigger types@[j as int]]
            j < types@.len() ==> needs.type_bits & (1u32 << j) == 0 || types@[j as int]
                & request.memory != request.memory,
{
    match find_memory_type(needs.type_bits, request.memory, types) {
        Ok(memory_type) => Ok(
            Allocation {
                size: needs.size,
                memory_type,
                device_address: buffer_usage_contains(request.usage, BUFFER_SHADER_DEVICE_ADDRESS),
            },
        ),
        Err(e) => Err(e),
    }
}

/// A buffer as it is created and bound.
#[derive(Clone, Copy, Debug, PartialEq, Eq, Structural)]
pub struct BufferDescription {
    pub size: u64,
    pub usage: u32,
    pub sharing_mode: i32,
    /// Where in its memory the buffer starts.
    pub memory_offset: u64,
}

/// The buffer that is asked for. It belongs to one queue family at a time and has its memory to
/// itself.
pub open spec fn buffer_spec(request: BufferRequest) -> BufferDescription {
    BufferDescription {
        size: request.size,
        usage: request.usage,
        sharing_mode: SHARING_EXCLUSIVE,
        memory_offset: 0,
    }
}

/// Describes the buffer that is asked for.
pub fn buffer_description(request: &BufferRequest) -> (d: BufferDescription)
    ensures
        d == buffer_spec(*request),
        d.size == request.size,
        d.usage == request.usage,
        d.sharing_mode == SHARING_EXCLUSIVE,
        d.memory_offset == 0,
{
    BufferDescription {
        size: request.size,
        usage: request.usage,
        sharing_mode: SHARING_EXCLUSIVE,
        memory_offset: 0,
    }
}

/// The buffer into which `byte_len` bytes are uploaded: the host can map its memory and need not
/// flush it.
pub fn upload_buffer(usage: u32, byte_len: u64) -> (r: BufferRequest)
    ensures
        r.size == byte_len,
        r.usage == usage,
        r.memory == MEMORY_HOST_VISIBLE | MEMORY_HOST_COHERENT,
{
    BufferRequest { size: byte_len, usage, memory: MEMORY_HOST_VISIBLE | MEMORY_HOST_COHERENT }
}

/// A part of an image.
#[derive(Clone, Copy, Debug, PartialEq, Eq, Structural)]
pub struct ImageRange {
    pub aspect: u32,
    pub base_level: u32,
    pub level_count: u32,
    pub base_layer: u32,
    pub layer_count: u32,
}

/// All of a colour image with one level and one layer.
pub open spec fn whole_image_spec() -> ImageRange {
    ImageRange {
        aspect: ASPECT_COLOR,
        base_level: 0,
        level_count: 1,
        base_layer: 0,
        layer_count: 1,
    }
}

/// All of a colour image with one level and one layer.
pub fn whole_image() -> (range: ImageRange)
    ensures
        range == whole_image_spec(),
        range.aspect == ASPECT_COLOR,
        range.base_level == 0 && range.level_count == 1,
        range.base_layer == 0 && range.layer_count == 1,
{
    ImageRange {
        aspect: ASPECT_COLOR,
        base_level: 0,
        level_count: 1,
        base_layer: 0,
        layer_count: 1,
    }
}

/// A view of an image.
#[derive(Clone, Copy, Debug, PartialEq, Eq, Structural)]
pub struct ViewDescription {
    pub view_type: i32,
    pub format: i32,
    pub range: ImageRange,
}

/// A flat view of a whole colour image.
pub open spec fn view_spec(format: i32) -> ViewDescription {
    ViewDescription { view_type: VIEW_TYPE_2D, format, range: whole_image_spec() }
}

/// Describes the view of an image with the given format.
pub fn view_description(format: i32) -> (d: ViewDescription)
    ensures
        d == view_spec(format),
        d.view_type == VIEW_TYPE_2D,
        d.format == format,
        d.range == whole_image_spec(),
{
    ViewDescription { view_type: VIEW_TYPE_2D, format, range: whole_image() }
}

/// An image to create, and the view through which it is used.
#[derive(Clone, Copy, Debug, PartialEq, Eq, Structural)]
pub struct ImageDescription {
    pub image_type: i32,
    pub format: i32,
    pub width: u32,
    pub height: u32,
    pub depth: u32,
    pub mip_levels: u32,
    pub array_layers: u32,
    pub samples: u32,
    pub tiling: i32,
    pub usage: u32,
    pub sharing_mode: i32,
    pub initial_layout: ImageLayout,
    /// Where in its memory the image starts.
    pub memory_offset: u64,
    pub view: ViewDescription,
}

/// A flat image of one level, one layer and one sample per pixel, laid out as suits the device,
/// with nothing in it yet. Its view shows all of its colours, in the image's own format.
pub open spec fn image_spec(extent: Extent, format: i32, usage: u32) -> ImageDescription {
    ImageDescription {
        image_type: IMAGE_TYPE_2D,
        format,
        width: extent.width,
        height: extent.height,
        depth: 1,
        mip_levels: 1,
        array_layers: 1,
        samples: SAMPLES_1,
        tiling: TILING_OPTIMAL,
        usage,
        sharing_mode: SHARING_EXCLUSIVE,
        initial_layout: ImageLayout::Undefined,
        memory_offset: 0,
        view: view_spec(format),
    }
}

/// Describes an image of the given size, format and usage.
pub fn image_description(extent: Extent, format: i32, usage: u32) -> (d: ImageDescription)
    ensures
        d == image_spec(extent, format, usage),
        d.image_type == IMAGE_TYPE_2D,
        d.width == extent.width && d.height == extent.height && d.depth == 1,
        d.format == format && d.usage == usage,
        d.mip_levels == 1 && d.array_layers == 1 && d.samples == SAMPLES_1,
        d.tiling == TILING_OPTIMAL,
        d.sharing_mode == SHARING_EXCLUSIVE,
        d.initial_layout == ImageLayout::Undefined,
        d.memory_offset == 0,
        d.view.format == format,
{
    ImageDescription {
        image_type: IMAGE_TYPE_2D,
        format,
        width: extent.width,
        height: extent.height,
        depth: 1,
        mip_levels: 1,
        array_layers: 1,
        samples: SAMPLES_1,
        tiling: TILING_OPTIMAL,
        usage,
        sharing_mode: SHARING_EXCLUSIVE,
        initial_layout: ImageLayout::Undefined,
        memory_offset: 0,
        view: view_description(format),
    }
}

/// An image has the given size, format and usage; its view shows all of it, level by level and layer
/// by layer, in the image's format; a buffer has the size and usage that were asked for. Both start
/// where their memory starts, and nothing is shared between queue families.
pub proof fn law_descriptions(extent: Extent, format: i32, usage: u32, request: BufferRequest)
    ensures
        ({
            let d = image_spec(extent, format, usage);
            &&& (d.width, d.height, d.depth) == (extent.width, extent.height, 1u32)
            &&& d.format == format && d.view.format == format
            &&& d.usage == usage
            &&& d.samples == 1
            &&& d.image_type == d.view.view_type && d.image_type == 1
            &&& d.view.range.aspect == 1
            &&& d.view.range.base_level == 0 && d.view.range.level_count == d.mip_levels
            &&& d.view.range.base_layer == 0 && d.view.range.layer_count == d.array_layers
            &&& d.mip_levels == 1 && d.array_layers == 1
            &&& d.tiling == 0 && d.initial_layout == ImageLayout::Undefined
            &&& d.memory_offset == 0 && d.sharing_mode == 0
        }),
        ({
            let b = buffer_spec(request);
            &&& b.size == request.size && b.usage == request.usage
            &&& b.memory_offset == 0 && b.sharing_mode == 0
        }),
{
}

/// Decides on the memory behind a device-local image.
pub fn create_image(needs: MemoryRequirements, types: &[u32]) -> (r: Result<
    Allocation,
    EngineError,
>)
    requires
        types@.len() <= 32,
    ensures
        match r {
            Ok(a) => {
                &&& a.size == needs.size
                &&& first_suitable(
                    needs.type_bits,
                    MEMORY_DEVICE_LOCAL,
                    types@,
                    a.memory_type as int,
                )
                &&& !a.device_address
            },
            Err(e) => e == EngineError::NoMemoryType && none_suitable(
                needs.type_bits,
                MEMORY_DEVICE_LOCAL,
                types@,
            ),
        },
        r matches Ok(a) ==> {
            &&& a.memory_type < types@.len()
            &&& needs.type_bits & (1u32 << a.memory_type) != 0
            &&& types@[a.memory_type as int] & 0x1 == 0x1
            &&& forall|j: u32|
                #![trigger types@[j as int]]
                j < a.memory_type ==> needs.type_bits & (1u32 << j) == 0 || types@[j as int] & 0x1
                    != 0x1
        },
        r is Err ==> forall|j: u32|
            #![trigger types@[j as int]]
            j < types@.len() ==> needs.type_bits & (1u32 << j) == 0 || types@[j as int] & 0x1
                != 0x1,
{
    match find_memory_type(needs.type_bits, MEMORY_DEVICE_LOCAL, types) {
        Ok(memory_type) => Ok(Allocation { size: needs.size, memory_type, device_address: false }),
        Err(e) => Err(e),
    }
}

} // verus!
