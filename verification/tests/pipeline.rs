use voxeller::engine::ImageLayout;
use voxeller::pipeline::{
    build_sbt, create_steps, descriptor_bindings, descriptor_writes, pool_sizes, sbt_regions, shader_groups,
    shader_stages, shader_words, CreateStep, DescriptorKind, PipelineObject, Region, Resource, RtPipeline,
    SbtLayout, ShaderGroup,
};
use voxeller::vulkan::{SHADER_CLOSEST_HIT, SHADER_MISS, SHADER_RAYGEN};

#[test]
fn layout_of_a_common_device() {
    let layout = SbtLayout::new(32, 32, 64);
    assert_eq!(layout, SbtLayout { handle_size: 32, entry_stride: 32, region_size: 64 });
    let layout = SbtLayout::new(20, 16, 64);
    assert_eq!(layout, SbtLayout { handle_size: 20, entry_stride: 32, region_size: 64 });
    let layout = SbtLayout::new(72, 8, 64);
    assert_eq!(layout, SbtLayout { handle_size: 72, entry_stride: 72, region_size: 128 });
}

#[test]
fn regions_hold_handles_and_zeros() {
    let layout = SbtLayout::new(3, 2, 8);
    let table = build_sbt(&layout, &[1, 2, 3, 4, 5, 6, 7, 8, 9]);
    assert_eq!(
        table,
        vec![1, 2, 3, 0, 0, 0, 0, 0, 4, 5, 6, 0, 0, 0, 0, 0, 7, 8, 9, 0, 0, 0, 0, 0]
    );
}

#[test]
fn surplus_handle_bytes_are_ignored() {
    let layout = SbtLayout::new(1, 1, 2);
    assert_eq!(build_sbt(&layout, &[9, 8, 7, 6, 5]), vec![9, 0, 8, 0, 7, 0]);
}

#[test]
fn regions_make_up_the_table() {
    let pipeline = RtPipeline::create(32, 64, 64, &[7; 96]);
    assert_eq!(pipeline.table.len(), 192);
    let request = pipeline.table_request();
    assert_eq!((request.size, request.usage, request.memory), (192, 0x2_0400, 0x6));
    let regions = sbt_regions(&pipeline.layout, 0x1_0000);
    assert_eq!(regions.raygen, Region { device_address: 0x1_0000, stride: 64, size: 64 });
    assert_eq!(regions.miss, Region { device_address: 0x1_0040, stride: 64, size: 64 });
    assert_eq!(regions.hit, Region { device_address: 0x1_0080, stride: 64, size: 64 });
    assert_eq!(regions.callable, Region { device_address: 0, stride: 0, size: 0 });
}

#[test]
fn strides_differ_from_region_sizes() {
    let layout = SbtLayout::new(32, 32, 128);
    let regions = sbt_regions(&layout, 0);
    assert_eq!(regions.raygen.stride, 128);
    assert_eq!(regions.miss.stride, 32);
    assert_eq!(regions.hit.stride, 32);
    assert_eq!(regions.hit.device_address, 256);
}

#[test]
fn each_region_starts_with_its_handle() {
    let handles: Vec<u8> = (0..60).collect();
    let pipeline = RtPipeline::create(20, 16, 64, &handles);
    let regions = sbt_regions(&pipeline.layout, 4096);
    for (g, region) in [regions.raygen, regions.miss, regions.hit].iter().enumerate() {
        let at = (region.device_address - 4096) as usize;
        assert_eq!(&pipeline.table[at..at + 20], &handles[20 * g..20 * g + 20]);
        assert_eq!(region.device_address % 64, 0);
    }
}

#[test]
fn bindings_match_pool_and_writes() {
    let bindings = descriptor_bindings();
    let writes = descriptor_writes();
    let pool = pool_sizes();
    assert_eq!(bindings.len(), 4);
    assert_eq!(writes.len(), 4);
    for (i, b) in bindings.iter().enumerate() {
        assert_eq!(b.binding as usize, i);
        assert_eq!(writes[i].binding as usize, i);
        assert_eq!(writes[i].kind, b.kind);
        assert_eq!(writes[i].count, b.count);
    }
    for size in &pool {
        let used: u32 = bindings.iter().filter(|b| b.kind == size.kind).map(|b| b.count).sum();
        assert_eq!(used, size.count);
    }
    assert_eq!(bindings[0].kind, DescriptorKind::AccelerationStructure);
    assert_eq!(bindings[0].stages, SHADER_RAYGEN);
    assert_eq!(bindings[3].kind, DescriptorKind::StorageBuffer);
    assert_eq!(bindings[3].stages, SHADER_CLOSEST_HIT);
    let resources: Vec<Resource> = writes.iter().map(|w| w.resource).collect();
    assert_eq!(
        resources,
        vec![
            Resource::Tlas,
            Resource::StorageView { layout: ImageLayout::General },
            Resource::Camera { offset: 0, range: u64::MAX },
            Resource::Faces { offset: 0, range: u64::MAX },
        ]
    );
}

#[test]
fn groups_name_their_stages() {
    let stages = shader_stages();
    assert_eq!(stages, vec![SHADER_RAYGEN, SHADER_MISS, SHADER_CLOSEST_HIT]);
    assert_eq!(
        shader_groups(),
        vec![
            ShaderGroup::General { shader: 0 },
            ShaderGroup::General { shader: 1 },
            ShaderGroup::TrianglesHit { closest_hit: 2 },
        ]
    );
}

#[test]
fn shader_code_is_read_in_words() {
    assert_eq!(
        shader_words(&[0x03, 0x02, 0x23, 0x07, 0x00, 0x03, 0x01, 0x00]),
        Some(vec![0x0723_0203, 0x0001_0300])
    );
    assert_eq!(shader_words(&[0xFF; 4]), Some(vec![u32::MAX]));
    assert_eq!(shader_words(&[]), Some(vec![]));
    assert_eq!(shader_words(&[1, 2, 3]), None);
}

#[test]
fn pipeline_objects_go_in_order() {
    let pipeline = RtPipeline::create(4, 4, 4, &[0; 12]);
    assert_eq!(
        pipeline.destroy(),
        vec![
            PipelineObject::Pipeline,
            PipelineObject::Layout,
            PipelineObject::DescriptorSetLayout,
            PipelineObject::DescriptorPool,
            PipelineObject::SbtBuffer,
            PipelineObject::SbtMemory,
        ]
    );
}

#[test]
fn shader_modules_are_released() {
    let steps = create_steps();
    assert_eq!(steps.len(), 15);
    let place = |step: CreateStep| {
        assert_eq!(steps.iter().filter(|&&s| s == step).count(), 1);
        steps.iter().position(|&s| s == step).unwrap()
    };
    let pipeline = place(CreateStep::Pipeline);
    for stage in 0..shader_stages().len() {
        assert!(place(CreateStep::CreateModule(stage)) < pipeline);
        assert!(pipeline < place(CreateStep::DestroyModule(stage)));
    }
    assert!(place(CreateStep::DescriptorSetLayout) < place(CreateStep::PipelineLayout));
    assert!(place(CreateStep::PipelineLayout) < pipeline);
    assert!(pipeline < place(CreateStep::QueryHandles));
    assert_eq!(
        steps[9..],
        [
            CreateStep::QueryHandles,
            CreateStep::UploadTable,
            CreateStep::QueryTableAddress,
            CreateStep::DescriptorPool,
            CreateStep::DescriptorSet,
            CreateStep::WriteDescriptors,
        ]
    );
}
