use voxeller::accel::aligned;
use voxeller::engine::ImageLayout;
use voxeller::error::EngineError;
use voxeller::memory::{
    align_up, buffer_description, create_buffer, create_image, find_memory_type,
    image_description, upload_buffer, Allocation, BufferDescription, BufferRequest,
    ImageDescription, ImageRange, MemoryRequirements, ViewDescription,
};
use voxeller::swapchain::Extent;

#[test]
fn rounding_up_to_powers_of_two() {
    assert_eq!(align_up(0, 16), 0);
    assert_eq!(align_up(1, 16), 16);
    assert_eq!(align_up(16, 16), 16);
    assert_eq!(align_up(17, 16), 32);
    assert_eq!(align_up(32, 64), 64);
    assert_eq!(align_up(5, 1), 5);
    assert_eq!(aligned(65, 64), 128);
}

#[test]
fn rounding_by_the_mask_of_other_numbers() {
    assert_eq!(align_up(4, 3), 4);
    assert_eq!(align_up(5, 6), 10);
}

#[test]
fn aligned_values_are_the_least_multiples() {
    for shift in 0..8 {
        let align = 1usize << shift;
        for value in 0..300 {
            let r = align_up(value, align);
            assert!(r % align == 0 && value <= r && r < value + align);
        }
    }
}

#[test]
fn the_first_suitable_memory_type_is_found() {
    let types = [0x1, 0x6, 0x7, 0xE];
    assert_eq!(find_memory_type(0b1111, 0x6, &types), Ok(1));
    assert_eq!(find_memory_type(0b1101, 0x6, &types), Ok(2));
    assert_eq!(find_memory_type(0b1000, 0x6, &types), Ok(3));
    assert_eq!(find_memory_type(0b1111, 0x0, &types), Ok(0));
}

#[test]
fn missing_memory_types_are_reported() {
    let types = [0x1, 0x6];
    assert_eq!(find_memory_type(0b01, 0x6, &types), Err(EngineError::NoMemoryType));
    assert_eq!(find_memory_type(0b11, 0x7, &types), Err(EngineError::NoMemoryType));
    assert_eq!(find_memory_type(u32::MAX, 0, &[]), Err(EngineError::NoMemoryType));
    assert_eq!(EngineError::NoMemoryType.message(), "No suitable memory type found");
}

#[test]
fn the_last_of_all_memory_types() {
    let mut types = [0u32; 32];
    types[31] = 0x1;
    assert_eq!(find_memory_type(0x8000_0000, 0x1, &types), Ok(31));
}

#[test]
fn weaker_demands_suffice() {
    let types = [0x2, 0x4, 0x6, 0x7];
    for bits in 0..16 {
        for more in 0..8 {
            for fewer in 0..8 {
                if more & fewer == fewer {
                    if let Ok(i) = find_memory_type(bits, more, &types) {
                        assert!(find_memory_type(bits, fewer, &types).unwrap() <= i);
                        assert!(find_memory_type(bits | 0b1010, fewer, &types).unwrap() <= i);
                    }
                }
            }
        }
    }
}

#[test]
fn buffers_with_and_without_device_address() {
    let needs = MemoryRequirements { size: 4096, type_bits: 0b10 };
    let types = [0x6, 0x1];
    let plain = BufferRequest { size: 100, usage: 0x20, memory: 0x1 };
    assert_eq!(
        create_buffer(&plain, needs, &types),
        Ok(Allocation { size: 4096, memory_type: 1, device_address: false })
    );
    let addressed = BufferRequest { size: 100, usage: 0x2_0020, memory: 0x1 };
    assert_eq!(
        create_buffer(&addressed, needs, &types),
        Ok(Allocation { size: 4096, memory_type: 1, device_address: true })
    );
    let mapped = BufferRequest { size: 100, usage: 0x20, memory: 0x6 };
    assert_eq!(create_buffer(&mapped, needs, &types), Err(EngineError::NoMemoryType));
}

#[test]
fn uploads_go_to_mappable_memory() {
    let request = upload_buffer(0x10, 128);
    assert_eq!(request, BufferRequest { size: 128, usage: 0x10, memory: 0x6 });
}

#[test]
fn images_are_device_local() {
    let types = [0x6, 0x1];
    assert_eq!(
        create_image(MemoryRequirements { size: 77, type_bits: 0b11 }, &types),
        Ok(Allocation { size: 77, memory_type: 1, device_address: false })
    );
    assert_eq!(
        create_image(MemoryRequirements { size: 77, type_bits: 0b01 }, &types),
        Err(EngineError::NoMemoryType)
    );
}

#[test]
fn images_are_flat_and_empty() {
    assert_eq!(
        image_description(Extent { width: 640, height: 480 }, 37, 0x9),
        ImageDescription {
            image_type: 1,
            format: 37,
            width: 640,
            height: 480,
            depth: 1,
            mip_levels: 1,
            array_layers: 1,
            samples: 1,
            tiling: 0,
            usage: 0x9,
            sharing_mode: 0,
            initial_layout: ImageLayout::Undefined,
            memory_offset: 0,
            view: ViewDescription {
                view_type: 1,
                format: 37,
                range: ImageRange {
                    aspect: 1,
                    base_level: 0,
                    level_count: 1,
                    base_layer: 0,
                    layer_count: 1,
                },
            },
        }
    );
}

#[test]
fn buffers_have_their_memory_to_themselves() {
    let request = BufferRequest { size: 100, usage: 0x20, memory: 0x1 };
    assert_eq!(
        buffer_description(&request),
        BufferDescription { size: 100, usage: 0x20, sharing_mode: 0, memory_offset: 0 }
    );
}
