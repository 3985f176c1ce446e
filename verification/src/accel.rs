//! What acceleration structures are built from: one unit cube, and one instance of it per voxel.

use crate::memory::{align_up, BufferRequest};
use crate::voxel::Voxel;
use crate::vulkan::{
    pack_24_8, ACCESS_ACCEL_READ, ACCESS_ACCEL_WRITE, BUFFER_ACCEL_BUILD_INPUT,
    BUFFER_ACCEL_STORAGE, BUFFER_SHADER_DEVICE_ADDRESS, BUFFER_STORAGE, MEMORY_DEVICE_LOCAL,
    STAGE_ACCEL_BUILD,
};
use vstd::prelude::*;

verus! {

/// Instances whose triangles are not culled by the way they face.
pub const INSTANCE_CULL_DISABLE: u8 = 0x1;

/// Bytes of a box in a build input: two corners of three single-precision numbers.
pub const BOX_STRIDE: u64 = 24;

/// An instance of the unit cube.
#[derive(Clone, Copy, Debug, PartialEq, Eq)]
pub struct Instance {
    /// An affine map, as a matrix of three rows and four columns stored row by row.
    pub transform: [i32; 12],
    pub custom_index: u32,
    pub mask: u8,
    pub sbt_offset: u32,
    pub flags: u8,
    /// The device address of the instanced structure.
    pub reference: u64,
}

/// The level of an acceleration structure.
#[derive(Clone, Copy, Debug, PartialEq, Eq, Structural)]
pub enum Level {
    Bottom,
    Top,
}

/// The input of a build.
#[derive(Clone, Copy, Debug, PartialEq, Eq, Structural)]
pub enum Geometry {
    /// Axis-aligned boxes, the given number of bytes apart.
    Boxes { stride: u64 },
    /// Instances of other structures.
    Instances,
}

/// A dependency between the work before and after it.
#[derive(Clone, Copy, Debug, PartialEq, Eq, Structural)]
pub struct MemoryBarrier {
    pub src_stage: u32,
    pub dst_stage: u32,
    pub src_access: u32,
    pub dst_access: u32,
}

/// The build of one acceleration structure.
#[derive(Clone, Copy, Debug, PartialEq, Eq, Structural)]
pub struct BuildPlan {
    pub level: Level,
    pub geometry: Geometry,
    pub primitive_count: u32,
    /// Hits need no test of their own.
    pub opaque: bool,
    /// Tracing is to be fast, at the cost of the build.
    pub prefer_fast_trace: bool,
    /// The usage of the buffer that holds the input.
    pub input_usage: u32,
    /// The barrier behind the build, if later builds read its result.
    pub barrier: Option<MemoryBarrier>,
}

/// A step of building the acceleration structure of a level.
#[derive(Clone, Copy, Debug, PartialEq, Eq, Structural)]
pub enum BuildStep {
    /// Upload the input into a temporary buffer.
    UploadInput(Level),
    /// Ask for the sizes of the structure and of the scratch space.
    QuerySizes(Level),
    /// Create the buffer that the structure lies in.
    CreateStorage(Level),
    CreateStructure(Level),
    /// Create the temporary buffer for scratch space.
    CreateScratch(Level),
    BeginCommands(Level),
    RecordBuild(Level),
    /// Record the barrier behind the build.
    RecordBarrier(Level),
    /// Submit the commands and wait until the device is done with them.
    SubmitAndWait(Level),
    /// Destroy the scratch buffer and free its memory.
    ReleaseScratch(Level),
    /// Destroy the input buffer and free its memory.
    ReleaseInput(Level),
    /// Ask for the structure's address on the device.
    QueryAddress(Level),
}

/// The objects that a pair of acceleration structures consists of.
#[derive(Clone, Copy, Debug, PartialEq, Eq, Structural)]
pub enum AccelObject {
    Tlas,
    TlasBuffer,
    TlasMemory,
    Blas,
    BlasBuffer,
    BlasMemory,
}

/// The builds of the two levels.
#[derive(Clone, Copy, Debug, PartialEq, Eq, Structural)]
pub struct AccelStructures {
    pub blas: BuildPlan,
    pub tlas: BuildPlan,
}

impl AccelStructures {
    /// Plans a bottom level with a single box (the unit cube) and a top level with one instance
    /// per voxel.
    pub fn build(voxel_count: usize) -> (plan: AccelStructures)
        ensures
            plan.blas == (BuildPlan {
                level: Level::Bottom,
                geometry: Geometry::Boxes { stride: BOX_STRIDE },
                primitive_count: 1,
                opaque: true,
                prefer_fast_trace: true,
                input_usage: BUFFER_ACCEL_BUILD_INPUT | BUFFER_SHADER_DEVICE_ADDRESS,
                barrier: Some(
                    MemoryBarrier {
                        src_stage: STAGE_ACCEL_BUILD,
                        dst_stage: STAGE_ACCEL_BUILD,
                        src_access: ACCESS_ACCEL_WRITE,
                        dst_access: ACCESS_ACCEL_READ,
                    },
                ),
            }),
            plan.tlas == (BuildPlan {
                level: Level::Top,
                geometry: Geometry::Instances,
                primitive_count: (voxel_count as int % 0x1_0000_0000) as u32,
                opaque: true,
                prefer_fast_trace: true,
                input_usage: BUFFER_ACCEL_BUILD_INPUT | BUFFER_SHADER_DEVICE_ADDRESS,
                barrier: None,
            }),
    {
        let input_usage: u32 = BUFFER_ACCEL_BUILD_INPUT | BUFFER_SHADER_DEVICE_ADDRESS;
        let barrier = MemoryBarrier {
            src_stage: STAGE_ACCEL_BUILD,
            dst_stage: STAGE_ACCEL_BUILD,
            src_access: ACCESS_ACCEL_WRITE,
            dst_access: ACCESS_ACCEL_READ,
        };
        AccelStructures {
            blas: BuildPlan {
                level: Level::Bottom,
                geometry: Geometry::Boxes { stride: BOX_STRIDE },
                primitive_count: 1,
                opaque: true,
                prefer_fast_trace: true,
                input_usage,
                barrier: Some(barrier),
            },
            tlas: BuildPlan {
                level: Level::Top,
                geometry: Geometry::Instances,
                primitive_count: (voxel_count as u64 % 0x1_0000_0000) as u32,
                opaque: true,
                prefer_fast_trace: true,
                input_usage,
                barrier: None,
            },
        }
    }

    /// The steps that build both levels.
    pub fn build_steps(&self) -> (steps: Vec<BuildStep>)
        ensures
            steps@ == build_order(*self),
    {
        let mut steps: Vec<BuildStep> = Vec::new();
        push_level(&mut steps, &self.blas);
        steps.push(BuildStep::QueryAddress(self.blas.level));
        push_level(&mut steps, &self.tlas);
        assert(steps@ =~= build_order(*self));
        steps
    }

    /// The order in which the objects are destroyed.
    pub fn destroy(&self) -> (order: Vec<AccelObject>)
        ensures
            order@ == destroy_order(),
    {
        let order = vec![
            AccelObject::Tlas,
            AccelObject::TlasBuffer,
            AccelObject::TlasMemory,
            AccelObject::Blas,
            AccelObject::BlasBuffer,
            AccelObject::BlasMemory,
        ];
        assert(order@ =~= destroy_order());
        order
    }
}

/// The steps that build one level: its temporary buffers are there until the device is done.
pub open spec fn level_order(plan: BuildPlan) -> Seq<BuildStep> {
    let level = plan.level;
    seq![
        BuildStep::UploadInput(level),
        BuildStep::QuerySizes(level),
        BuildStep::CreateStorage(level),
        BuildStep::CreateStructure(level),
        BuildStep::CreateScratch(level),
        BuildStep::BeginCommands(level),
        BuildStep::RecordBuild(level),
    ] + (if plan.barrier is Some {
        seq![BuildStep::RecordBarrier(level)]
    } else {
        seq![]
    }) + seq![
        BuildStep::SubmitAndWait(level),
        BuildStep::ReleaseScratch(level),
        BuildStep::ReleaseInput(level),
    ]
}

/// The steps that build both levels: the top level begins when the bottom level is complete and
/// its address is known.
pub open spec fn build_order(plans: AccelStructures) -> Seq<BuildStep> {
    level_order(plans.blas) + seq![BuildStep::QueryAddress(plans.blas.level)] + level_order(
        plans.tlas,
    )
}

/// Appends the steps that build one level.
fn push_level(steps: &mut Vec<BuildStep>, plan: &BuildPlan)
    ensures
        final(steps)@ == old(steps)@ + level_order(*plan),
{
    let level = plan.level;
    steps.push(BuildStep::UploadInput(level));
    steps.push(BuildStep::QuerySizes(level));
    steps.push(BuildStep::CreateStorage(level));
    steps.push(BuildStep::CreateStructure(level));
    steps.push(BuildStep::CreateScratch(level));
    steps.push(BuildStep::BeginCommands(level));
    steps.push(BuildStep::RecordBuild(level));
    if plan.barrier.is_some() {
        steps.push(BuildStep::RecordBarrier(level));
    }
    steps.push(BuildStep::SubmitAndWait(level));
    steps.push(BuildStep::ReleaseScratch(level));
    steps.push(BuildStep::ReleaseInput(level));
    assert(steps@ =~= old(steps)@ + level_order(*plan));
}

/// The level that a step belongs to.
pub open spec fn level_of(step: BuildStep) -> Level {
    match step {
        BuildStep::UploadInput(level) => level,
        BuildStep::QuerySizes(level) => level,
        BuildStep::CreateStorage(level) => level,
        BuildStep::CreateStructure(level) => level,
        BuildStep::CreateScratch(level) => level,
        BuildStep::BeginCommands(level) => level,
        BuildStep::RecordBuild(level) => level,
        BuildStep::RecordBarrier(level) => level,
        BuildStep::SubmitAndWait(level) => level,
        BuildStep::ReleaseScratch(level) => level,
        BuildStep::ReleaseInput(level) => level,
        BuildStep::QueryAddress(level) => level,
    }
}

/// The plans are for the levels that they stand for.
pub open spec fn has_both_levels(plans: AccelStructures) -> bool {
    plans.blas.level == Level::Bottom && plans.tlas.level == Level::Top
}

/// The bottom level is complete, and its address is known, before the top level begins.
pub proof fn law_bottom_level_first(plans: AccelStructures, i: int, j: int)
    requires
        has_both_levels(plans),
        0 <= i < build_order(plans).len(),
        0 <= j < build_order(plans).len(),
        level_of(build_order(plans)[i]) == Level::Bottom,
        level_of(build_order(plans)[j]) == Level::Top,
    ensures
        i < j,
        build_order(plans).contains(BuildStep::SubmitAndWait(Level::Bottom)),
        build_order(plans).contains(BuildStep::QueryAddress(Level::Bottom)),
{
    let n = level_order(plans.blas).len() as int;
    lemma_build_places(plans, i);
    lemma_build_places(plans, j);
    assert(build_order(plans)[n - 3] == BuildStep::SubmitAndWait(Level::Bottom));
    assert(build_order(plans)[n] == BuildStep::QueryAddress(Level::Bottom));
}

/// Both temporary buffers of a level are created before its commands are submitted, and released
/// after the device is done with them. No step occurs twice, so each is released once.
pub proof fn law_temporaries_are_released(plans: AccelStructures, level: Level)
    requires
        has_both_levels(plans),
    ensures
        build_order(plans).no_duplicates(),
        exists|input: int, scratch: int, wait: int, a: int, b: int|
            #![trigger build_order(plans)[input], build_order(plans)[scratch],
                build_order(plans)[wait], build_order(plans)[a], build_order(plans)[b]]
            {
                &&& 0 <= input < wait < b < build_order(plans).len()
                &&& 0 <= scratch < wait < a < build_order(plans).len()
                &&& build_order(plans)[input] == BuildStep::UploadInput(level)
                &&& build_order(plans)[scratch] == BuildStep::CreateScratch(level)
                &&& build_order(plans)[wait] == BuildStep::SubmitAndWait(level)
                &&& build_order(plans)[a] == BuildStep::ReleaseScratch(level)
                &&& build_order(plans)[b] == BuildStep::ReleaseInput(level)
            },
{
    let order = build_order(plans);
    assert forall|i: int, j: int| 0 <= i < j < order.len() implies order[i] != order[j] by {
        lemma_build_places(plans, i);
        lemma_build_places(plans, j);
    }
    let n = level_order(plans.blas).len() as int;
    let (start, end) = if level == Level::Bottom {
        (0, n)
    } else {
        (n + 1, order.len() as int)
    };
    assert(order[start] == BuildStep::UploadInput(level));
    assert(order[start + 4] == BuildStep::CreateScratch(level));
    assert(order[end - 3] == BuildStep::SubmitAndWait(level));
    assert(order[end - 2] == BuildStep::ReleaseScratch(level));
    assert(order[end - 1] == BuildStep::ReleaseInput(level));
}

/// The place of each step in the build order.
spec fn build_place(plans: AccelStructures, step: BuildStep) -> int {
    let n = level_order(plans.blas).len() as int;
    let (plan, start) = if level_of(step) == Level::Bottom {
        (plans.blas, 0)
    } else {
        (plans.tlas, n + 1)
    };
    let end = start + level_order(plan).len();
    match step {
        BuildStep::UploadInput(_) => start,
        BuildStep::QuerySizes(_) => start + 1,
        BuildStep::CreateStorage(_) => start + 2,
        BuildStep::CreateStructure(_) => start + 3,
        BuildStep::CreateScratch(_) => start + 4,
        BuildStep::BeginCommands(_) => start + 5,
        BuildStep::RecordBuild(_) => start + 6,
        BuildStep::RecordBarrier(_) => start + 7,
        BuildStep::SubmitAndWait(_) => end - 3,
        BuildStep::ReleaseScratch(_) => end - 2,
        BuildStep::ReleaseInput(_) => end - 1,
        BuildStep::QueryAddress(_) => n,
    }
}

proof fn lemma_build_places(plans: AccelStructures, i: int)
    requires
        has_both_levels(plans),
        0 <= i < build_order(plans).len(),
    ensures
        build_place(plans, build_order(plans)[i]) == i,
        level_of(build_order(plans)[i]) == Level::Bottom <==> i <= level_order(plans.blas).len(),
{
}

/// Each level goes through all of its steps: the barrier exactly if its plan has one, and the address
/// only of the bottom level, which the top level's input refers to.
pub proof fn law_builds_are_complete(plans: AccelStructures, step: BuildStep)
    requires
        has_both_levels(plans),
    ensures
        build_order(plans).contains(step) <==> match step {
            BuildStep::RecordBarrier(Level::Bottom) => plans.blas.barrier is Some,
            BuildStep::RecordBarrier(Level::Top) => plans.tlas.barrier is Some,
            BuildStep::QueryAddress(level) => level == Level::Bottom,
            _ => true,
        },
{
    let order = build_order(plans);
    let place = build_place(plans, step);
    if match step {
        BuildStep::RecordBarrier(Level::Bottom) => plans.blas.barrier is Some,
        BuildStep::RecordBarrier(Level::Top) => plans.tlas.barrier is Some,
        BuildStep::QueryAddress(level) => level == Level::Bottom,
        _ => true,
    } {
        assert(order[place] == step);
    }
    if order.contains(step) {
        let i = choose|i: int| 0 <= i < order.len() && order[i] == step;
        lemma_build_places(plans, i);
        assert(order[i] == step);
    }
}

/// Step `b` of a level needs step `a` of the same level: sizes need the input, buffers their sizes,
/// a structure its buffer; the build is recorded into a command buffer, with the structure and the
/// scratch space there, and the barrier behind it; what was recorded is submitted; temporaries are
/// released and the address is asked for when the device is done.
pub open spec fn needs(b: BuildStep, a: BuildStep) -> bool {
    &&& level_of(a) == level_of(b)
    &&& match b {
        BuildStep::UploadInput(_) => false,
        BuildStep::QuerySizes(_) => a is UploadInput,
        BuildStep::CreateStorage(_) => a is QuerySizes,
        BuildStep::CreateStructure(_) => a is CreateStorage,
        BuildStep::CreateScratch(_) => a is QuerySizes,
        BuildStep::BeginCommands(_) => false,
        BuildStep::RecordBuild(_) => a is BeginCommands || a is CreateStructure
            || a is CreateScratch || a is UploadInput,
        BuildStep::RecordBarrier(_) => a is RecordBuild,
        BuildStep::SubmitAndWait(_) => a is RecordBuild || a is RecordBarrier,
        BuildStep::ReleaseScratch(_) => a is SubmitAndWait || a is CreateScratch,
        BuildStep::ReleaseInput(_) => a is SubmitAndWait || a is UploadInput,
        BuildStep::QueryAddress(_) => a is SubmitAndWait,
    }
}

/// No step is taken before those that it needs.
pub proof fn law_steps_find_what_they_need(plans: AccelStructures, i: int, j: int)
    requires
        has_both_levels(plans),
        0 <= i < build_order(plans).len(),
        0 <= j < build_order(plans).len(),
        needs(build_order(plans)[j], build_order(plans)[i]),
    ensures
        i < j,
{
    lemma_build_places(plans, i);
    lemma_build_places(plans, j);
}

/// The sequence of a build: everything that is needed is made, then the commands are recorded, and
/// after the device is done the temporaries go in the reverse order of their making.
pub proof fn law_build_sequence(plans: AccelStructures, level: Level) -> (places: (int, int))
    requires
        has_both_levels(plans),
    ensures
        ({
            let order = build_order(plans);
            let (start, end) = places;
            let barrier = if level == Level::Bottom {
                plans.blas.barrier is Some
            } else {
                plans.tlas.barrier is Some
            };
            &&& level == Level::Bottom ==> start == 0 && order[end]
                == BuildStep::QueryAddress(Level::Bottom)
            &&& level == Level::Top ==> end == order.len()
            &&& end - start == (if barrier {
                11int
            } else {
                10int
            })
            &&& order[start] == BuildStep::UploadInput(level)
            &&& order[start + 1] == BuildStep::QuerySizes(level)
            &&& order[start + 2] == BuildStep::CreateStorage(level)
            &&& order[start + 3] == BuildStep::CreateStructure(level)
            &&& order[start + 4] == BuildStep::CreateScratch(level)
            &&& order[start + 5] == BuildStep::BeginCommands(level)
            &&& order[start + 6] == BuildStep::RecordBuild(level)
            &&& barrier ==> order[start + 7] == BuildStep::RecordBarrier(level)
            &&& order[end - 3] == BuildStep::SubmitAndWait(level)
            &&& order[end - 2] == BuildStep::ReleaseScratch(level)
            &&& order[end - 1] == BuildStep::ReleaseInput(level)
        }),
{
    let n = level_order(plans.blas).len() as int;
    if level == Level::Bottom {
        (0, n)
    } else {
        (n + 1, build_order(plans).len() as int)
    }
}

/// The objects are destroyed once each: the top level before the bottom level that its instances
/// refer to, a structure before its buffer and a buffer before its memory.
pub proof fn law_destroy_order(i: int, j: int)
    requires
        0 <= i < destroy_order().len(),
        0 <= j < destroy_order().len(),
    ensures
        destroy_order().len() == 6,
        destroy_order()[i] == AccelObject::Tlas && destroy_order()[j] == AccelObject::TlasBuffer
            ==> i < j,
        destroy_order()[i] == AccelObject::TlasBuffer && destroy_order()[j]
            == AccelObject::TlasMemory ==> i < j,
        destroy_order()[i] == AccelObject::Tlas && destroy_order()[j] == AccelObject::Blas ==> i
            < j,
        destroy_order()[i] == AccelObject::Blas && destroy_order()[j] == AccelObject::BlasBuffer
            ==> i < j,
        destroy_order()[i] == AccelObject::BlasBuffer && destroy_order()[j]
            == AccelObject::BlasMemory ==> i < j,
        destroy_order()[i] == destroy_order()[j] ==> i == j,
{
    assert(i == 0 || i == 1 || i == 2 || i == 3 || i == 4 || i == 5);
    assert(j == 0 || j == 1 || j == 2 || j == 3 || j == 4 || j == 5);
}

/// The top level goes before the bottom level that it refers to; each structure goes before its
/// buffer, and the buffer before its memory.
pub open spec fn destroy_order() -> Seq<AccelObject> {
    seq![
        AccelObject::Tlas,
        AccelObject::TlasBuffer,
        AccelObject::TlasMemory,
        AccelObject::Blas,
        AccelObject::BlasBuffer,
        AccelObject::BlasMemory,
    ]
}

/// The buffer that an acceleration structure of the given size is stored in.
pub fn storage_request(size: u64) -> (r: BufferRequest)
    ensures
        r == (BufferRequest {
            size,
            usage: BUFFER_ACCEL_STORAGE | BUFFER_SHADER_DEVICE_ADDRESS,
            memory: MEMORY_DEVICE_LOCAL,
        }),
{
    BufferRequest {
        size,
        usage: BUFFER_ACCEL_STORAGE | BUFFER_SHADER_DEVICE_ADDRESS,
        memory: MEMORY_DEVICE_LOCAL,
    }
}

/// The buffer that a build uses as scratch space.
pub fn scratch_request(size: u64) -> (r: BufferRequest)
    ensures
        r == (BufferRequest {
            size,
            usage: BUFFER_STORAGE | BUFFER_SHADER_DEVICE_ADDRESS,
            memory: MEMORY_DEVICE_LOCAL,
        }),
{
    BufferRequest {
        size,
        usage: BUFFER_STORAGE | BUFFER_SHADER_DEVICE_ADDRESS,
        memory: MEMORY_DEVICE_LOCAL,
    }
}

/// The coordinates of the unit cube's lower and upper corner.
pub fn unit_box() -> (corners: ([i32; 3], [i32; 3]))
    ensures
        crate::voxel::point(corners.0) == (0int, 0int, 0int),
        crate::voxel::point(corners.1) == (1int, 1int, 1int),
{
    ([0, 0, 0], [1, 1, 1])
}

/// The translation by `p`, row by row: the identity matrix beside the column `p`.
pub open spec fn translation_rows(p: (int, int, int)) -> Seq<int> {
    seq![1, 0, 0, p.0, 0, 1, 0, p.1, 0, 0, 1, p.2]
}

/// The matrix stores the translation by `p` row by row.
pub open spec fn is_translation(m: [i32; 12], p: (int, int, int)) -> bool {
    forall|i: int| 0 <= i < 12 ==> #[trigger] m[i] == translation_rows(p)[i]
}

/// The translation by a voxel's position, as three rows of four columns.
pub fn transform_rows(p: [i32; 3]) -> (m: [i32; 12])
    ensures
        is_translation(m, crate::voxel::point(p)),
        m[0] == 1 && m[1] == 0 && m[2] == 0 && m[3] == p[0],
        m[4] == 0 && m[5] == 1 && m[6] == 0 && m[7] == p[1],
        m[8] == 0 && m[9] == 0 && m[10] == 1 && m[11] == p[2],
{
    [1, 0, 0, p[0], 0, 1, 0, p[1], 0, 0, 1, p[2]]
}

/// The translation by a voxel's position, as four columns of three rows: entry `(r, c)` of the
/// matrix stands in column `c` at place `r`.
pub fn transform_columns(p: [i32; 3]) -> (m: [[i32; 3]; 4])
    ensures
        forall|r: int, c: int|
            0 <= r < 3 && 0 <= c < 4 ==> #[trigger] m[c][r] == translation_rows(
                crate::voxel::point(p),
            )[4 * r + c],
        forall|r: int, c: int|
            0 <= r < 3 && 0 <= c < 3 ==> #[trigger] m[c][r] == (if r == c {
                1int
            } else {
                0int
            }),
        m[3][0] == p[0] && m[3][1] == p[1] && m[3][2] == p[2],
{
    let m = [[1, 0, 0], [0, 1, 0], [0, 0, 1], [p[0], p[1], p[2]]];
    assert forall|r: int, c: int| 0 <= r < 3 && 0 <= c < 4 implies #[trigger] m[c][r]
        == translation_rows(crate::voxel::point(p))[4 * r + c] by {
        assert(r == 0 || r == 1 || r == 2);
        assert(c == 0 || c == 1 || c == 2 || c == 3);
    }
    m
}

/// The image of point `q` under the affine map whose rows are stored in `m`.
pub open spec fn apply_rows(m: Seq<int>, q: (int, int, int)) -> (int, int, int) {
    (
        m[0] * q.0 + m[1] * q.1 + m[2] * q.2 + m[3],
        m[4] * q.0 + m[5] * q.1 + m[6] * q.2 + m[7],
        m[8] * q.0 + m[9] * q.1 + m[10] * q.2 + m[11],
    )
}

/// An instance's transformation moves the unit cube, point by point, into the cell of its voxel.
pub proof fn law_transform_moves_to_cell(p: (int, int, int), q: (int, int, int))
    ensures
        apply_rows(translation_rows(p), q) == (p.0 + q.0, p.1 + q.1, p.2 + q.2),
{
    let m = translation_rows(p);
    assert(m[0] * q.0 == q.0) by (nonlinear_arith)
        requires
            m[0] == 1,
    ;
    assert(m[5] * q.1 == q.1) by (nonlinear_arith)
        requires
            m[5] == 1,
    ;
    assert(m[10] * q.2 == q.2) by (nonlinear_arith)
        requires
            m[10] == 1,
    ;
    assert(m[1] * q.1 == 0 && m[2] * q.2 == 0 && m[4] * q.0 == 0 && m[6] * q.2 == 0 && m[8] * q.0
        == 0 && m[9] * q.1 == 0) by (nonlinear_arith)
        requires
            m[1] == 0,
            m[2] == 0,
            m[4] == 0,
            m[6] == 0,
            m[8] == 0,
            m[9] == 0,
    ;
}

/// The instance of voxel number `i`.
pub open spec fn is_instance_of<C>(instance: Instance, voxel: Voxel<C>, i: int, blas: u64) -> bool {
    &&& is_translation(instance.transform, voxel.cell())
    &&& instance.custom_index == i % 0x100_0000
    &&& instance.mask == 0xFF
    &&& instance.sbt_offset == 0
    &&& instance.flags == INSTANCE_CULL_DISABLE
    &&& instance.reference == blas
}

/// One instance of the structure at address `blas` for each voxel, in the order of the voxels.
/// The custom index of an instance is the number of its voxel, as far as 24 bits hold it.
pub fn instances<C>(voxels: &[Voxel<C>], blas: u64) -> (r: Vec<Instance>)
    ensures
        r@.len() == voxels@.len(),
        forall|i: int|
            #![trigger r@[i]]
            0 <= i < r@.len() ==> is_instance_of(r@[i], voxels@[i], i, blas),
        forall|i: int|
            #![trigger r@[i]]
            0 <= i < r@.len() ==> {
                &&& r@[i].transform[3] == voxels@[i].position[0]
                &&& r@[i].transform[7] == voxels@[i].position[1]
                &&& r@[i].transform[11] == voxels@[i].position[2]
                &&& r@[i].custom_index == i % 0x100_0000
                &&& r@[i].mask == 0xFF
                &&& r@[i].sbt_offset == 0
                &&& r@[i].flags == 1
                &&& r@[i].reference == blas
            },
{
    let mut r: Vec<Instance> = Vec::new();
    let mut i: usize = 0;
    while i < voxels.len()
        invariant
            i <= voxels@.len(),
            r@.len() == i,
            forall|k: int|
                #![trigger r@[k]]
                0 <= k < i ==> is_instance_of(r@[k], voxels@[k], k, blas),
        decreases voxels@.len() - i,
    {
        let corner = voxels[i].aabb_min();
        let number: u32 = (i as u64 % 0x1_0000_0000) as u32;
        let (custom_index, mask) = pack_24_8(number, 0xFF);
        let (sbt_offset, flags) = pack_24_8(0, INSTANCE_CULL_DISABLE);
        assert(number & 0x00FF_FFFF == number % 0x100_0000) by (bit_vector);
        assert(0u32 & 0x00FF_FFFF == 0) by (bit_vector);
        assert((i as int % 0x1_0000_0000) % 0x100_0000 == i as int % 0x100_0000);
        let transform = transform_rows(corner);
        r.push(Instance { transform, custom_index, mask, sbt_offset, flags, reference: blas });
        i += 1;
    }
    proof {
        assert forall|k: int| #![trigger r@[k]] 0 <= k < r@.len() implies {
            &&& r@[k].transform[3] == voxels@[k].position[0]
            &&& r@[k].transform[7] == voxels@[k].position[1]
            &&& r@[k].transform[11] == voxels@[k].position[2]
        } by {
            assert(is_instance_of(r@[k], voxels@[k], k, blas));
            law_instances_stand_in_their_cells(r@[k], voxels@[k], k, blas, (0, 0, 0));
        }
    }
    r
}

/// An instance moves each point of the unit cube by its voxel's position, and keeps the cube's shape.
/// It is seen by all rays, never culled, uses the first hit record, and names its voxel and the
/// structure that it is an instance of.
pub proof fn law_instances_stand_in_their_cells<C>(
    instance: Instance,
    voxel: Voxel<C>,
    i: int,
    blas: u64,
    q: (int, int, int),
)
    requires
        is_instance_of(instance, voxel, i, blas),
    ensures
        ({
            let m = instance.transform;
            let p = voxel.position;
            &&& m[0] * q.0 + m[1] * q.1 + m[2] * q.2 + m[3] == p[0] + q.0
            &&& m[4] * q.0 + m[5] * q.1 + m[6] * q.2 + m[7] == p[1] + q.1
            &&& m[8] * q.0 + m[9] * q.1 + m[10] * q.2 + m[11] == p[2] + q.2
        }),
        instance.custom_index == i % 16_777_216,
        instance.mask == 255,
        instance.sbt_offset == 0,
        instance.flags == 1,
        instance.reference == blas,
{
    let t = translation_rows(voxel.cell());
    law_transform_moves_to_cell(voxel.cell(), q);
    let m = instance.transform;
    assert(m[0] == t[0] && m[1] == t[1] && m[2] == t[2] && m[3] == t[3]);
    assert(m[4] == t[4] && m[5] == t[5] && m[6] == t[6] && m[7] == t[7]);
    assert(m[8] == t[8] && m[9] == t[9] && m[10] == t[10] && m[11] == t[11]);
    lemma_same_products(m[0] as int, t[0], q.0);
    lemma_same_products(m[1] as int, t[1], q.1);
    lemma_same_products(m[2] as int, t[2], q.2);
    lemma_same_products(m[4] as int, t[4], q.0);
    lemma_same_products(m[5] as int, t[5], q.1);
    lemma_same_products(m[6] as int, t[6], q.2);
    lemma_same_products(m[8] as int, t[8], q.0);
    lemma_same_products(m[9] as int, t[9], q.1);
    lemma_same_products(m[10] as int, t[10], q.2);
}

proof fn lemma_same_products(a: int, b: int, c: int)
    requires
        a == b,
    ensures
        a * c == b * c,
{
}

/// Up to the capacity of 24 bits, instances can be told apart by their custom index.
pub proof fn law_instances_are_numbered<C>(
    instances: Seq<Instance>,
    voxels: Seq<Voxel<C>>,
    blas: u64,
    i: int,
    j: int,
)
    requires
        instances.len() == voxels.len(),
        voxels.len() <= 0x100_0000,
        forall|k: int|
            #![trigger instances[k]]
            0 <= k < instances.len() ==> is_instance_of(instances[k], voxels[k], k, blas),
        0 <= i < j < instances.len(),
    ensures
        instances[i].custom_index == i,
        instances[i].custom_index != instances[j].custom_index,
{
    assert(is_instance_of(instances[i], voxels[i], i, blas));
    assert(is_instance_of(instances[j], voxels[j], j, blas));
}

/// Aligns `value` up to a multiple of `align_to`, where `align_to` is a power of two.
pub fn aligned(value: usize, align_to: usize) -> (r: usize)
    requires
        align_to > 0,
        value + align_to <= usize::MAX,
    ensures
        r == crate::memory::align_up_spec(value, align_to),
        crate::memory::is_power_of_two(align_to as int) ==> r as int % align_to as int == 0 && value
            <= r < value + align_to,
{
    align_up(value, align_to)
}

} // verus!
