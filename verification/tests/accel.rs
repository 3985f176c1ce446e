use voxeller::accel::{
    instances, scratch_request, storage_request, transform_columns, transform_rows, unit_box,
    AccelObject, AccelStructures, BuildStep, Geometry, Level, MemoryBarrier,
};
use voxeller::memory::BufferRequest;
use voxeller::metal::cube_instances;
use voxeller::voxel::Voxel;

fn line(n: usize) -> Vec<Voxel<u8>> {
    (0..n).map(|i| Voxel { position: [i as i32, -1, 2 * i as i32], color: 0 }).collect()
}

#[test]
fn one_instance_for_each_voxel() {
    let list = instances(&line(300), 0xABCD);
    assert_eq!(list.len(), 300);
    for (i, instance) in list.iter().enumerate() {
        let x = i as i32;
        assert_eq!(instance.transform, [1, 0, 0, x, 0, 1, 0, -1, 0, 0, 1, 2 * x]);
        assert_eq!(instance.custom_index, i as u32);
        assert_eq!(instance.mask, 0xFF);
        assert_eq!(instance.sbt_offset, 0);
        assert_eq!(instance.flags, 1);
        assert_eq!(instance.reference, 0xABCD);
    }
}

#[test]
fn custom_indices_have_24_bits() {
    let list = instances(&vec![Voxel { position: [0, 0, 0], color: () }; 0x100_0001], 1);
    assert_eq!(list[0xFF_FFFF].custom_index, 0xFF_FFFF);
    assert_eq!(list[0x100_0000].custom_index, 0);
}

#[test]
fn rows_and_columns_hold_the_same_map() {
    let rows = transform_rows([7, -8, 9]);
    let columns = transform_columns([7, -8, 9]);
    for r in 0..3 {
        for c in 0..4 {
            assert_eq!(rows[4 * r + c], columns[c][r]);
        }
    }
}

#[test]
fn transforms_move_the_unit_cube_to_the_cell() {
    let m = transform_rows([7, -8, 9]);
    let (low, high) = unit_box();
    let image = |q: [i32; 3]| -> Vec<i32> {
        (0..3).map(|r| m[4 * r] * q[0] + m[4 * r + 1] * q[1] + m[4 * r + 2] * q[2] + m[4 * r + 3]).collect()
    };
    assert_eq!(image(low), vec![7, -8, 9]);
    assert_eq!(image(high), vec![8, -7, 10]);
}

#[test]
fn builds_of_both_levels() {
    let plan = AccelStructures::build(1234);
    assert_eq!(plan.blas.level, Level::Bottom);
    assert_eq!(plan.blas.geometry, Geometry::Boxes { stride: 24 });
    assert_eq!(plan.blas.primitive_count, 1);
    assert_eq!(
        plan.blas.barrier,
        Some(MemoryBarrier {
            src_stage: 0x200_0000,
            dst_stage: 0x200_0000,
            src_access: 0x40_0000,
            dst_access: 0x20_0000,
        })
    );
    assert_eq!(plan.tlas.level, Level::Top);
    assert_eq!(plan.tlas.geometry, Geometry::Instances);
    assert_eq!(plan.tlas.primitive_count, 1234);
    assert_eq!(plan.tlas.barrier, None);
    assert!(plan.blas.opaque && plan.blas.prefer_fast_trace);
    assert!(plan.tlas.opaque && plan.tlas.prefer_fast_trace);
    assert_eq!(plan.blas.input_usage, 0xA_0000);
    assert_eq!(plan.tlas.input_usage, 0xA_0000);
}

#[test]
fn buffers_of_a_build() {
    assert_eq!(storage_request(9), BufferRequest { size: 9, usage: 0x12_0000, memory: 1 });
    assert_eq!(scratch_request(9), BufferRequest { size: 9, usage: 0x2_0020, memory: 1 });
}

#[test]
fn acceleration_structures_go_in_order() {
    assert_eq!(
        AccelStructures::build(0).destroy(),
        vec![
            AccelObject::Tlas,
            AccelObject::TlasBuffer,
            AccelObject::TlasMemory,
            AccelObject::Blas,
            AccelObject::BlasBuffer,
            AccelObject::BlasMemory,
        ]
    );
}

#[test]
fn cube_instances_are_opaque_and_never_culled() {
    let list = cube_instances(&line(3));
    assert_eq!(list.len(), 3);
    assert_eq!(list[2].transform, [[1, 0, 0], [0, 1, 0], [0, 0, 1], [2, -1, 4]]);
    assert!(list[2].opaque && list[2].disable_culling);
    assert_eq!(list[2].mask, 0xFF);
    assert_eq!(list[2].function_table_offset, 0);
    assert_eq!(list[2].structure_index, 0);
}

#[test]
fn the_bottom_level_is_built_first() {
    let steps = AccelStructures::build(5).build_steps();
    let (bottom, top) = (Level::Bottom, Level::Top);
    assert_eq!(
        steps,
        vec![
            BuildStep::UploadInput(bottom),
            BuildStep::QuerySizes(bottom),
            BuildStep::CreateStorage(bottom),
            BuildStep::CreateStructure(bottom),
            BuildStep::CreateScratch(bottom),
            BuildStep::BeginCommands(bottom),
            BuildStep::RecordBuild(bottom),
            BuildStep::RecordBarrier(bottom),
            BuildStep::SubmitAndWait(bottom),
            BuildStep::ReleaseScratch(bottom),
            BuildStep::ReleaseInput(bottom),
            BuildStep::QueryAddress(bottom),
            BuildStep::UploadInput(top),
            BuildStep::QuerySizes(top),
            BuildStep::CreateStorage(top),
            BuildStep::CreateStructure(top),
            BuildStep::CreateScratch(top),
            BuildStep::BeginCommands(top),
            BuildStep::RecordBuild(top),
            BuildStep::SubmitAndWait(top),
            BuildStep::ReleaseScratch(top),
            BuildStep::ReleaseInput(top),
        ]
    );
}

#[test]
fn temporary_buffers_are_released_once() {
    let steps = AccelStructures::build(5).build_steps();
    let place = |step: BuildStep| {
        assert_eq!(steps.iter().filter(|&&s| s == step).count(), 1);
        steps.iter().position(|&s| s == step).unwrap()
    };
    for level in [Level::Bottom, Level::Top] {
        let wait = place(BuildStep::SubmitAndWait(level));
        assert!(place(BuildStep::UploadInput(level)) < wait);
        assert!(place(BuildStep::CreateScratch(level)) < wait);
        assert!(wait < place(BuildStep::ReleaseScratch(level)));
        assert!(wait < place(BuildStep::ReleaseInput(level)));
    }
}
