//! The ray-tracing pipeline as data: descriptor bindings, shader groups and the shader binding
//! table.

use crate::engine::ImageLayout;
use crate::memory::{align_up, upload_buffer, BufferRequest};
use crate::vulkan::{
    BUFFER_SHADER_BINDING_TABLE, BUFFER_SHADER_DEVICE_ADDRESS, MEMORY_HOST_COHERENT,
    MEMORY_HOST_VISIBLE, SHADER_CLOSEST_HIT, SHADER_MISS, SHADER_RAYGEN,
    WHOLE_SIZE,
};
use vstd::prelude::*;

verus! {

/// What a shader finds at a binding.
#[derive(Clone, Copy, Debug, PartialEq, Eq, Structural)]
pub enum DescriptorKind {
    AccelerationStructure,
    StorageImage,
    UniformBuffer,
    StorageBuffer,
}

/// A binding of the pipeline's descriptor set.
#[derive(Clone, Copy, Debug, PartialEq, Eq, Structural)]
pub struct DescriptorBinding {
    pub binding: u32,
    pub kind: DescriptorKind,
    pub count: u32,
    /// The shader stages that read the binding.
    pub stages: u32,
}

/// The object that is written to a binding.
#[derive(Clone, Copy, Debug, PartialEq, Eq, Structural)]
pub enum Resource {
    /// The top-level acceleration structure.
    Tlas,
    /// The image that rays are traced into, in the layout that it has while they are.
    StorageView { layout: ImageLayout },
    /// A range of the buffer with the camera's matrices.
    Camera { offset: u64, range: u64 },
    /// A range of the buffer with colour and normal of every face.
    Faces { offset: u64, range: u64 },
}

/// The write that gives a binding its object.
#[derive(Clone, Copy, Debug, PartialEq, Eq, Structural)]
pub struct DescriptorWrite {
    pub binding: u32,
    pub kind: DescriptorKind,
    pub count: u32,
    pub resource: Resource,
}

/// How many descriptors of a kind the descriptor pool holds.
#[derive(Clone, Copy, Debug, PartialEq, Eq, Structural)]
pub struct PoolSize {
    pub kind: DescriptorKind,
    pub count: u32,
}

/// A shader group of the pipeline. Shaders are named by the index of their stage.
#[derive(Clone, Copy, Debug, PartialEq, Eq, Structural)]
pub enum ShaderGroup {
    /// A single ray generation or miss shader.
    General { shader: u32 },
    /// The closest-hit shader for triangles; no intersection shader is needed for them.
    TrianglesHit { closest_hit: u32 },
}

/// The bindings: acceleration structure, storage image and camera for ray generation, face data
/// for closest hits.
pub open spec fn bindings_spec() -> Seq<DescriptorBinding> {
    seq![
        DescriptorBinding {
            binding: 0,
            kind: DescriptorKind::AccelerationStructure,
            count: 1,
            stages: SHADER_RAYGEN,
        },
        DescriptorBinding {
            binding: 1,
            kind: DescriptorKind::StorageImage,
            count: 1,
            stages: SHADER_RAYGEN,
        },
        DescriptorBinding {
            binding: 2,
            kind: DescriptorKind::UniformBuffer,
            count: 1,
            stages: SHADER_RAYGEN,
        },
        DescriptorBinding {
            binding: 3,
            kind: DescriptorKind::StorageBuffer,
            count: 1,
            stages: SHADER_CLOSEST_HIT,
        },
    ]
}

/// The bindings of the pipeline's descriptor set.
pub fn descriptor_bindings() -> (bindings: Vec<DescriptorBinding>)
    ensures
        bindings@ == bindings_spec(),
{
    let bindings = vec![
        DescriptorBinding {
            binding: 0,
            kind: DescriptorKind::AccelerationStructure,
            count: 1,
            stages: SHADER_RAYGEN,
        },
        DescriptorBinding {
            binding: 1,
            kind: DescriptorKind::StorageImage,
            count: 1,
            stages: SHADER_RAYGEN,
        },
        DescriptorBinding {
            binding: 2,
            kind: DescriptorKind::UniformBuffer,
            count: 1,
            stages: SHADER_RAYGEN,
        },
        DescriptorBinding {
            binding: 3,
            kind: DescriptorKind::StorageBuffer,
            count: 1,
            stages: SHADER_CLOSEST_HIT,
        },
    ];
    assert(bindings@ =~= bindings_spec());
    bindings
}

/// The writes that fill the descriptor set, one for each binding. Buffers are bound as a whole.
pub open spec fn writes_spec() -> Seq<DescriptorWrite> {
    seq![
        DescriptorWrite {
            binding: 0,
            kind: DescriptorKind::AccelerationStructure,
            count: 1,
            resource: Resource::Tlas,
        },
        DescriptorWrite {
            binding: 1,
            kind: DescriptorKind::StorageImage,
            count: 1,
            resource: Resource::StorageView { layout: ImageLayout::General },
        },
        DescriptorWrite {
            binding: 2,
            kind: DescriptorKind::UniformBuffer,
            count: 1,
            resource: Resource::Camera { offset: 0, range: WHOLE_SIZE },
        },
        DescriptorWrite {
            binding: 3,
            kind: DescriptorKind::StorageBuffer,
            count: 1,
            resource: Resource::Faces { offset: 0, range: WHOLE_SIZE },
        },
    ]
}

/// The writes that fill the descriptor set.
pub fn descriptor_writes() -> (writes: Vec<DescriptorWrite>)
    ensures
        writes@ == writes_spec(),
{
    let writes = vec![
        DescriptorWrite {
            binding: 0,
            kind: DescriptorKind::AccelerationStructure,
            count: 1,
            resource: Resource::Tlas,
        },
        DescriptorWrite {
            binding: 1,
            kind: DescriptorKind::StorageImage,
            count: 1,
            resource: Resource::StorageView { layout: ImageLayout::General },
        },
        DescriptorWrite {
            binding: 2,
            kind: DescriptorKind::UniformBuffer,
            count: 1,
            resource: Resource::Camera { offset: 0, range: WHOLE_SIZE },
        },
        DescriptorWrite {
            binding: 3,
            kind: DescriptorKind::StorageBuffer,
            count: 1,
            resource: Resource::Faces { offset: 0, range: WHOLE_SIZE },
        },
    ];
    assert(writes@ =~= writes_spec());
    writes
}

/// The size of the descriptor pool, which serves one descriptor set.
pub open spec fn pool_spec() -> Seq<PoolSize> {
    seq![
        PoolSize { kind: DescriptorKind::AccelerationStructure, count: 1 },
        PoolSize { kind: DescriptorKind::StorageImage, count: 1 },
        PoolSize { kind: DescriptorKind::UniformBuffer, count: 1 },
        PoolSize { kind: DescriptorKind::StorageBuffer, count: 1 },
    ]
}

/// The size of the descriptor pool.
pub fn pool_sizes() -> (sizes: Vec<PoolSize>)
    ensures
        sizes@ == pool_spec(),
{
    let sizes = vec![
        PoolSize { kind: DescriptorKind::AccelerationStructure, count: 1 },
        PoolSize { kind: DescriptorKind::StorageImage, count: 1 },
        PoolSize { kind: DescriptorKind::UniformBuffer, count: 1 },
        PoolSize { kind: DescriptorKind::StorageBuffer, count: 1 },
    ];
    assert(sizes@ =~= pool_spec());
    sizes
}

/// The number of descriptors of a kind that the first `n` bindings use.
pub open spec fn descriptors_used(kind: DescriptorKind, n: int) -> int
    decreases n,
{
    if n <= 0 {
        0
    } else {
        descriptors_used(kind, n - 1) + if bindings_spec()[n - 1].kind == kind {
            bindings_spec()[n - 1].count as int
        } else {
            0
        }
    }
}

/// The descriptor pool holds exactly the descriptors that the bindings use.
pub proof fn law_pool_fits_bindings(i: int)
    requires
        0 <= i < pool_spec().len(),
    ensures
        pool_spec()[i].count == descriptors_used(
            pool_spec()[i].kind,
            bindings_spec().len() as int,
        ),
{
    reveal_with_fuel(descriptors_used, 5);
    assert(bindings_spec().len() == 4);
}

/// Each binding is written once, with an object of its kind.
pub proof fn law_bindings_are_written(i: int)
    requires
        0 <= i < bindings_spec().len(),
    ensures
        bindings_spec().len() == writes_spec().len(),
        bindings_spec()[i].binding == i,
        writes_spec()[i].binding == i,
        writes_spec()[i].kind == bindings_spec()[i].kind,
        writes_spec()[i].count == bindings_spec()[i].count,
        bindings_spec()[i].count == 1,
{
}

/// What the shaders expect at each binding: the scene, the image, the camera for ray generation, and
/// the faces for closest hits. The object that is written is of the binding's kind; buffers are bound
/// from their start to their end.
pub proof fn law_shader_interface()
    ensures
        bindings_spec().len() == 4,
        writes_spec().len() == 4,
        bindings_spec()[0].kind == DescriptorKind::AccelerationStructure,
        bindings_spec()[1].kind == DescriptorKind::StorageImage,
        bindings_spec()[2].kind == DescriptorKind::UniformBuffer,
        bindings_spec()[3].kind == DescriptorKind::StorageBuffer,
        forall|i: int| 0 <= i < 3 ==> (#[trigger] bindings_spec()[i]).stages == 0x100,
        bindings_spec()[3].stages == 0x400,
        forall|i: int|
            0 <= i < 4 ==> (#[trigger] bindings_spec()[i]).binding == i && bindings_spec()[i].count
                == 1,
        forall|i: int|
            0 <= i < 4 ==> {
                let write = #[trigger] writes_spec()[i];
                &&& write.binding == i
                &&& write.count == 1
                &&& write.kind == match write.resource {
                    Resource::Tlas => DescriptorKind::AccelerationStructure,
                    Resource::StorageView { .. } => DescriptorKind::StorageImage,
                    Resource::Camera { .. } => DescriptorKind::UniformBuffer,
                    Resource::Faces { .. } => DescriptorKind::StorageBuffer,
                }
                &&& write.kind == bindings_spec()[i].kind
                &&& write.resource matches Resource::Camera { offset, range } ==> offset == 0
                    && range == 0xFFFF_FFFF_FFFF_FFFF
                &&& write.resource matches Resource::Faces { offset, range } ==> offset == 0
                    && range == 0xFFFF_FFFF_FFFF_FFFF
                &&& write.resource matches Resource::StorageView { layout } ==> layout
                    == ImageLayout::General
            },
{
    assert forall|i: int| 0 <= i < 4 implies (#[trigger] bindings_spec()[i]).binding == i
        && bindings_spec()[i].count == 1 by {
        assert(i == 0 || i == 1 || i == 2 || i == 3);
    }
    assert forall|i: int| 0 <= i < 3 implies (#[trigger] bindings_spec()[i]).stages == 0x100 by {
        assert(i == 0 || i == 1 || i == 2);
    }
}

/// The pool serves every binding: it has one entry for the binding's kind, and that entry has room
/// for the binding.
pub proof fn law_pool_serves_every_binding(i: int) -> (place: int)
    requires
        0 <= i < bindings_spec().len(),
    ensures
        0 <= place < pool_spec().len(),
        pool_spec()[place].kind == bindings_spec()[i].kind,
        pool_spec()[place].count == 1,
        pool_spec().len() == 4,
        forall|j: int|
            0 <= j < pool_spec().len() && (#[trigger] pool_spec()[j]).kind
                == bindings_spec()[i].kind ==> j == place,
{
    assert forall|j: int|
        0 <= j < pool_spec().len() && (#[trigger] pool_spec()[j]).kind
            == bindings_spec()[i].kind implies j == i by {
        assert(j == 0 || j == 1 || j == 2 || j == 3);
        assert(i == 0 || i == 1 || i == 2 || i == 3);
    }
    assert(i == 0 || i == 1 || i == 2 || i == 3);
    i
}

/// The storage image is bound in the layout that it has when a frame traces rays, the only command
/// that the pipeline's descriptors are used by.
pub proof fn law_storage_is_bound_as_traced(
    i: int,
    state: crate::engine::Recording,
    command: crate::engine::Command,
)
    requires
        0 <= i < writes_spec().len(),
        command is TraceRays,
        crate::engine::apply_command(state, command) is Some,
    ensures
        writes_spec()[i].resource matches Resource::StorageView { layout } ==> layout
            == state.storage,
{
}

/// The shader stages of the pipeline: ray generation, miss, closest hit.
pub open spec fn stages_spec() -> Seq<u32> {
    seq![SHADER_RAYGEN, SHADER_MISS, SHADER_CLOSEST_HIT]
}

/// The shader stages of the pipeline.
pub fn shader_stages() -> (stages: Vec<u32>)
    ensures
        stages@ == stages_spec(),
{
    let stages = vec![SHADER_RAYGEN, SHADER_MISS, SHADER_CLOSEST_HIT];
    assert(stages@ =~= stages_spec());
    stages
}

/// The shader groups of the pipeline: ray generation, miss, hit.
pub open spec fn groups_spec() -> Seq<ShaderGroup> {
    seq![
        ShaderGroup::General { shader: 0 },
        ShaderGroup::General { shader: 1 },
        ShaderGroup::TrianglesHit { closest_hit: 2 },
    ]
}

/// The shader groups of the pipeline.
pub fn shader_groups() -> (groups: Vec<ShaderGroup>)
    ensures
        groups@ == groups_spec(),
{
    let groups = vec![
        ShaderGroup::General { shader: 0 },
        ShaderGroup::General { shader: 1 },
        ShaderGroup::TrianglesHit { closest_hit: 2 },
    ];
    assert(groups@ =~= groups_spec());
    groups
}

/// Every shader group names an existing stage of the type that the group is for, and each stage
/// belongs to the group of the same number.
pub proof fn law_groups_name_their_stages(i: int)
    requires
        0 <= i < groups_spec().len(),
    ensures
        groups_spec().len() == stages_spec().len(),
        match groups_spec()[i] {
            ShaderGroup::General { shader } => shader == i && (stages_spec()[i] == SHADER_RAYGEN
                || stages_spec()[i] == SHADER_MISS),
            ShaderGroup::TrianglesHit { closest_hit } => closest_hit == i && stages_spec()[i]
                == SHADER_CLOSEST_HIT,
        },
{
}

/// The pipeline has three stages and a group for each: ray generation first, then misses, then hits,
/// in the order in which the regions of the shader binding table follow each other.
pub proof fn law_stages_in_order()
    ensures
        stages_spec().len() == 3,
        groups_spec().len() == 3,
        stages_spec()[0] == 0x100,
        stages_spec()[1] == 0x800,
        stages_spec()[2] == 0x400,
        groups_spec()[0] == (ShaderGroup::General { shader: 0 }),
        groups_spec()[1] == (ShaderGroup::General { shader: 1 }),
        groups_spec()[2] == (ShaderGroup::TrianglesHit { closest_hit: 2 }),
{
}

/// The number whose bytes, lowest first, start at byte `at`.
pub open spec fn word_at(code: Seq<u8>, at: int) -> int {
    code[at] + 0x100 * code[at + 1] + 0x1_0000 * code[at + 2] + 0x100_0000 * code[at + 3]
}

/// A word holds its four bytes side by side, the first one lowest.
pub proof fn law_word_bytes(code: Seq<u8>, at: int)
    requires
        0 <= at,
        at + 4 <= code.len(),
    ensures
        0 <= word_at(code, at) <= u32::MAX,
        word_at(code, at) % 0x100 == code[at],
        word_at(code, at) / 0x100 % 0x100 == code[at + 1],
        word_at(code, at) / 0x1_0000 % 0x100 == code[at + 2],
        word_at(code, at) / 0x100_0000 == code[at + 3],
{
}

/// The words of a shader's code. Code that does not consist of whole words is refused.
pub fn shader_words(code: &[u8]) -> (r: Option<Vec<u32>>)
    ensures
        match r {
            Some(words) => {
                &&& 4 * words@.len() == code@.len()
                &&& forall|i: int|
                    0 <= i < words@.len() ==> #[trigger] words@[i] == word_at(code@, 4 * i)
            },
            None => code@.len() % 4 != 0,
        },
        r matches Some(words) ==> forall|i: int|
            0 <= i < words@.len() ==> {
                let word = #[trigger] words@[i] as int;
                &&& word % 0x100 == code@[4 * i]
                &&& word / 0x100 % 0x100 == code@[4 * i + 1]
                &&& word / 0x1_0000 % 0x100 == code@[4 * i + 2]
                &&& word / 0x100_0000 == code@[4 * i + 3]
            },
{
    let total: usize = code.len();
    if total % 4 != 0 {
        return None;
    }
    let mut words: Vec<u32> = Vec::new();
    let mut at: usize = 0;
    while at < total
        invariant
            total == code@.len(),
            total % 4 == 0,
            at % 4 == 0,
            at <= total,
            4 * words@.len() == at,
            forall|i: int| 0 <= i < words@.len() ==> #[trigger] words@[i] == word_at(code@, 4 * i),
        decreases total - at,
    {
        let word: u32 = code[at] as u32 + 0x100 * code[at + 1] as u32 + 0x1_0000 * code[at + 2] as u32
            + 0x100_0000 * code[at + 3] as u32;
        words.push(word);
        at += 4;
    }
    proof {
        assert forall|i: int| 0 <= i < words@.len() implies {
            let word = #[trigger] words@[i] as int;
            &&& word % 0x100 == code@[4 * i]
            &&& word / 0x100 % 0x100 == code@[4 * i + 1]
            &&& word / 0x1_0000 % 0x100 == code@[4 * i + 2]
            &&& word / 0x100_0000 == code@[4 * i + 3]
        } by {
            law_word_bytes(code@, 4 * i);
        }
    }
    Some(words)
}

/// The measures of a shader binding table with one ray generation, one miss and one hit entry.
#[derive(Clone, Copy, Debug, PartialEq, Eq, Structural)]
pub struct SbtLayout {
    /// Bytes of a shader group handle.
    pub handle_size: usize,
    /// Bytes from one entry of a region to the next.
    pub entry_stride: usize,
    /// Bytes of each of the three regions.
    pub region_size: usize,
}

/// The layout of a table for handles of the given size: entries are aligned for handles, regions
/// for the start of a table.
pub open spec fn layout_spec(handle_size: usize, handle_align: usize, base_align: usize) -> SbtLayout {
    let entry_stride = crate::memory::align_up_spec(handle_size, handle_align);
    SbtLayout {
        handle_size,
        entry_stride,
        region_size: crate::memory::align_up_spec(entry_stride, base_align),
    }
}

impl SbtLayout {
    /// The whole table has a size, and a handle fits into each region.
    pub open spec fn wf(self) -> bool {
        &&& self.handle_size <= self.region_size
        &&& 3 * self.region_size <= usize::MAX
    }

    /// Lays out the table for handles of the given size.
    pub fn new(handle_size: usize, handle_align: usize, base_align: usize) -> (layout: SbtLayout)
        requires
            handle_align > 0,
            base_align > 0,
            handle_size + handle_align <= usize::MAX,
            crate::memory::align_up_spec(handle_size, handle_align) + base_align <= usize::MAX,
        ensures
            layout == layout_spec(handle_size, handle_align, base_align),
            layout.handle_size == handle_size,
            layout.entry_stride == crate::memory::align_up_spec(handle_size, handle_align),
            layout.region_size == crate::memory::align_up_spec(layout.entry_stride, base_align),
            crate::memory::is_power_of_two(handle_align as int) ==> layout.entry_stride as int
                % handle_align as int == 0 && handle_size <= layout.entry_stride < handle_size
                + handle_align,
            crate::memory::is_power_of_two(base_align as int) ==> layout.region_size as int
                % base_align as int == 0 && layout.entry_stride <= layout.region_size
                < layout.entry_stride + base_align,
    {
        let entry_stride = align_up(handle_size, handle_align);
        let region_size = align_up(entry_stride, base_align);
        SbtLayout { handle_size, entry_stride, region_size }
    }
}

/// With alignments that are powers of two a handle fits into each region, and nothing is wasted: the
/// entries are the smallest aligned ones that hold a handle, the regions the smallest aligned ones
/// that hold an entry.
pub proof fn law_handles_fit(handle_size: usize, handle_align: usize, base_align: usize)
    requires
        crate::memory::is_power_of_two(handle_align as int),
        crate::memory::is_power_of_two(base_align as int),
        handle_size + handle_align <= usize::MAX,
        crate::memory::align_up_spec(handle_size, handle_align) + base_align <= usize::MAX,
    ensures
        ({
            let layout = layout_spec(handle_size, handle_align, base_align);
            &&& layout.handle_size == handle_size
            &&& handle_size <= layout.entry_stride <= layout.region_size
            &&& layout.entry_stride < handle_size + handle_align
            &&& layout.entry_stride as int % handle_align as int == 0
            &&& layout.region_size < layout.entry_stride + base_align
            &&& layout.region_size as int % base_align as int == 0
        }),
{
    crate::memory::law_align_up(handle_size, handle_align);
    let stride = crate::memory::align_up_spec(handle_size, handle_align);
    crate::memory::law_align_up(stride, base_align);
}

/// The bytes of a region: a handle, and zeros up to the region's size.
pub open spec fn region_bytes(handle: Seq<u8>, size: int) -> Seq<u8> {
    Seq::new(
        size as nat,
        |k: int|
            if k < handle.len() {
                handle[k]
            } else {
                0
            },
    )
}

/// The handle of shader group `g`.
pub open spec fn group_handle(handles: Seq<u8>, g: int, size: int) -> Seq<u8> {
    handles.subrange(g * size, (g + 1) * size)
}

/// The bytes of the table: one region for each shader group.
pub open spec fn table_spec(layout: SbtLayout, handles: Seq<u8>) -> Seq<u8> {
    let h = layout.handle_size as int;
    let r = layout.region_size as int;
    region_bytes(group_handle(handles, 0, h), r) + region_bytes(group_handle(handles, 1, h), r)
        + region_bytes(group_handle(handles, 2, h), r)
}

/// Appends a region with the handle that starts at byte `start` of `handles`.
fn push_region(table: &mut Vec<u8>, handles: &[u8], start: usize, layout: &SbtLayout)
    requires
        layout.wf(),
        start + layout.handle_size <= handles@.len(),
    ensures
        final(table)@ == old(table)@ + region_bytes(
            handles@.subrange(start as int, start + layout.handle_size),
            layout.region_size as int,
        ),
{
    let ghost region = region_bytes(
        handles@.subrange(start as int, start + layout.handle_size),
        layout.region_size as int,
    );
    let total: usize = handles.len();
    let mut k: usize = 0;
    assert(table@ =~= old(table)@ + region.subrange(0, 0));
    while k < layout.region_size
        invariant
            layout.wf(),
            start + layout.handle_size <= total,
            total == handles@.len(),
            k <= layout.region_size,
            region == region_bytes(
                handles@.subrange(start as int, start + layout.handle_size),
                layout.region_size as int,
            ),
            table@ == old(table)@ + region.subrange(0, k as int),
        decreases layout.region_size - k,
    {
        if k < layout.handle_size {
            table.push(handles[start + k]);
        } else {
            table.push(0);
        }
        k += 1;
        assert(table@ =~= old(table)@ + region.subrange(0, k as int));
    }
    assert(region.subrange(0, k as int) =~= region);
}

/// Fills the shader binding table with the handles of the three shader groups, which follow each
/// other in `handles`.
pub fn build_sbt(layout: &SbtLayout, handles: &[u8]) -> (table: Vec<u8>)
    requires
        layout.wf(),
        3 * layout.handle_size <= handles@.len(),
    ensures
        table@ == table_spec(*layout, handles@),
        table@.len() == 3 * layout.region_size,
        forall|k: int|
            0 <= k < layout.region_size ==> #[trigger] table@[k] == (if k < layout.handle_size {
                handles@[k]
            } else {
                0
            }),
        forall|k: int|
            layout.region_size <= k < 2 * layout.region_size ==> #[trigger] table@[k] == (if k
                - layout.region_size < layout.handle_size {
                handles@[layout.handle_size + k - layout.region_size]
            } else {
                0
            }),
        forall|k: int|
            2 * layout.region_size <= k < 3 * layout.region_size ==> #[trigger] table@[k] == (if k
                - 2 * layout.region_size < layout.handle_size {
                handles@[2 * layout.handle_size + k - 2 * layout.region_size]
            } else {
                0
            }),
{
    let mut table: Vec<u8> = Vec::new();
    push_region(&mut table, handles, 0, layout);
    push_region(&mut table, handles, layout.handle_size, layout);
    push_region(&mut table, handles, 2 * layout.handle_size, layout);
    assert(table@ =~= table_spec(*layout, handles@));
    table
}

/// A stretch of a shader binding table on the device.
#[derive(Clone, Copy, Debug, PartialEq, Eq, Structural)]
pub struct Region {
    pub device_address: u64,
    pub stride: u64,
    pub size: u64,
}

/// The regions that rays are traced with.
#[derive(Clone, Copy, Debug, PartialEq, Eq, Structural)]
pub struct SbtRegions {
    pub raygen: Region,
    pub miss: Region,
    pub hit: Region,
    pub callable: Region,
}

/// The regions of a table at the given device address. There are no callable shaders.
pub open spec fn regions_spec(layout: SbtLayout, base: u64) -> SbtRegions {
    let size = layout.region_size as u64;
    let stride = layout.entry_stride as u64;
    SbtRegions {
        raygen: Region { device_address: base, stride: size, size },
        miss: Region { device_address: (base + size) as u64, stride, size },
        hit: Region { device_address: (base + size + size) as u64, stride, size },
        callable: Region { device_address: 0, stride: 0, size: 0 },
    }
}

/// The regions of a table at the given device address.
pub fn sbt_regions(layout: &SbtLayout, base: u64) -> (regions: SbtRegions)
    requires
        base + 2 * layout.region_size <= u64::MAX,
    ensures
        regions == regions_spec(*layout, base),
        regions.raygen.device_address == base,
        regions.miss.device_address == base + layout.region_size,
        regions.hit.device_address == base + 2 * layout.region_size,
        regions.raygen.size == layout.region_size && regions.miss.size == layout.region_size
            && regions.hit.size == layout.region_size,
        regions.raygen.stride == regions.raygen.size,
        regions.miss.stride == layout.entry_stride && regions.hit.stride == layout.entry_stride,
        regions.callable.device_address == 0 && regions.callable.stride == 0
            && regions.callable.size == 0,
{
    let size = layout.region_size as u64;
    let stride = layout.entry_stride as u64;
    SbtRegions {
        raygen: Region { device_address: base, stride: size, size },
        miss: Region { device_address: base + size, stride, size },
        hit: Region { device_address: base + size + size, stride, size },
        callable: Region { device_address: 0, stride: 0, size: 0 },
    }
}

/// The regions lie one behind the other and make up the whole table.
pub proof fn law_regions_partition_table(layout: SbtLayout, handles: Seq<u8>, base: u64)
    requires
        layout.wf(),
        base + 3 * layout.region_size <= u64::MAX,
    ensures
        ({
            let r = regions_spec(layout, base);
            &&& r.raygen.device_address == base
            &&& r.miss.device_address == r.raygen.device_address + r.raygen.size
            &&& r.hit.device_address == r.miss.device_address + r.miss.size
            &&& r.hit.device_address + r.hit.size == base + table_spec(layout, handles).len()
            &&& table_spec(layout, handles).len() == 3 * layout.region_size
            &&& r.raygen.size == r.miss.size == r.hit.size
            &&& r.raygen.stride == r.raygen.size
            &&& r.miss.stride == layout.entry_stride
            &&& r.hit.stride == layout.entry_stride
            &&& r.callable.device_address == 0 && r.callable.stride == 0 && r.callable.size == 0
        }),
{
}

/// Behind the handle of its shader group each region holds nothing but zeros.
pub proof fn law_regions_end_with_zeros(layout: SbtLayout, handles: Seq<u8>, k: int)
    requires
        layout.wf(),
        3 * layout.handle_size <= handles.len(),
        layout.handle_size <= k < layout.region_size,
    ensures
        table_spec(layout, handles)[k] == 0,
        table_spec(layout, handles)[layout.region_size + k] == 0,
        table_spec(layout, handles)[2 * layout.region_size + k] == 0,
{
}

/// A region begins with the bytes of its own shader group's handle: the first group's in the first
/// region, the second's in the second, the third's in the third.
pub proof fn law_handles_stay_in_order(layout: SbtLayout, handles: Seq<u8>, k: int)
    requires
        layout.wf(),
        3 * layout.handle_size <= handles.len(),
        0 <= k < layout.handle_size,
    ensures
        table_spec(layout, handles)[k] == handles[k],
        table_spec(layout, handles)[layout.region_size + k] == handles[layout.handle_size + k],
        table_spec(layout, handles)[2 * layout.region_size + k] == handles[2 * layout.handle_size
            + k],
{
    let h = layout.handle_size as int;
    assert(group_handle(handles, 0, h)[k] == handles[k]);
    assert(group_handle(handles, 1, h)[k] == handles[h + k]);
    assert(group_handle(handles, 2, h)[k] == handles[2 * h + k]);
}

/// Each region starts with the handle of its shader group.
pub proof fn law_regions_start_with_handles(layout: SbtLayout, handles: Seq<u8>, base: u64)
    requires
        layout.wf(),
        3 * layout.handle_size <= handles.len(),
        base + 3 * layout.region_size <= u64::MAX,
    ensures
        ({
            let r = regions_spec(layout, base);
            let table = table_spec(layout, handles);
            let h = layout.handle_size as int;
            let miss = r.miss.device_address - base;
            let hit = r.hit.device_address - base;
            &&& table.subrange(0, h) == group_handle(handles, 0, h)
            &&& table.subrange(miss, miss + h) == group_handle(handles, 1, h)
            &&& table.subrange(hit, hit + h) == group_handle(handles, 2, h)
        }),
{
    let r = regions_spec(layout, base);
    let table = table_spec(layout, handles);
    let h = layout.handle_size as int;
    let size = layout.region_size as int;
    assert(table.subrange(0, h) =~= group_handle(handles, 0, h));
    assert(table.subrange(size, size + h) =~= group_handle(handles, 1, h));
    assert(table.subrange(2 * size, 2 * size + h) =~= group_handle(handles, 2, h));
}

/// In a table at an aligned address every region is aligned, and every region's stride is
/// aligned for handles.
pub proof fn law_regions_are_aligned(
    handle_size: usize,
    handle_align: usize,
    base_align: usize,
    base: u64,
)
    requires
        crate::memory::is_power_of_two(handle_align as int),
        crate::memory::is_power_of_two(base_align as int),
        handle_size + handle_align <= usize::MAX,
        crate::memory::align_up_spec(handle_size, handle_align) + base_align <= usize::MAX,
        base + 3 * layout_spec(handle_size, handle_align, base_align).region_size <= u64::MAX,
        base as int % base_align as int == 0,
    ensures
        ({
            let r = regions_spec(layout_spec(handle_size, handle_align, base_align), base);
            &&& r.raygen.device_address as int % base_align as int == 0
            &&& r.miss.device_address as int % base_align as int == 0
            &&& r.hit.device_address as int % base_align as int == 0
            &&& r.miss.stride as int % handle_align as int == 0
            &&& r.hit.stride as int % handle_align as int == 0
        }),
{
    let layout = layout_spec(handle_size, handle_align, base_align);
    crate::memory::law_align_up(handle_size, handle_align);
    crate::memory::law_align_up(layout.entry_stride, base_align);
    let a = base_align as int;
    let size = layout.region_size as int;
    vstd::arithmetic::div_mod::lemma_add_mod_noop(base as int, size, a);
    vstd::arithmetic::div_mod::lemma_add_mod_noop(base + size, size, a);
    vstd::arithmetic::div_mod::lemma_small_mod(0, a as nat);
}

/// How deep rays may spawn rays: only ray generation does.
pub const RECURSION_DEPTH: u32 = 1;

/// The number of descriptor sets that the pool serves.
pub const MAX_SETS: u32 = 1;

/// Rays do not spawn rays, and there is one descriptor set.
pub proof fn law_limits()
    ensures
        RECURSION_DEPTH == 1,
        MAX_SETS == 1,
{
}

/// A step of creating the pipeline. Shader modules are named by the index of their stage.
#[derive(Clone, Copy, Debug, PartialEq, Eq, Structural)]
pub enum CreateStep {
    DescriptorSetLayout,
    PipelineLayout,
    CreateModule(usize),
    Pipeline,
    DestroyModule(usize),
    /// Ask for the handles of the shader groups.
    QueryHandles,
    /// Upload the shader binding table.
    UploadTable,
    /// Ask for the table's address on the device, and with it for its regions.
    QueryTableAddress,
    DescriptorPool,
    /// Allocate the descriptor set from the pool.
    DescriptorSet,
    WriteDescriptors,
}

/// The steps that create the pipeline, its shader binding table and its descriptors.
pub open spec fn create_order() -> Seq<CreateStep> {
    seq![
        CreateStep::DescriptorSetLayout,
        CreateStep::PipelineLayout,
        CreateStep::CreateModule(0),
        CreateStep::CreateModule(1),
        CreateStep::CreateModule(2),
        CreateStep::Pipeline,
        CreateStep::DestroyModule(0),
        CreateStep::DestroyModule(1),
        CreateStep::DestroyModule(2),
        CreateStep::QueryHandles,
        CreateStep::UploadTable,
        CreateStep::QueryTableAddress,
        CreateStep::DescriptorPool,
        CreateStep::DescriptorSet,
        CreateStep::WriteDescriptors,
    ]
}

/// The steps that create the pipeline.
pub fn create_steps() -> (steps: Vec<CreateStep>)
    ensures
        steps@ == create_order(),
{
    let steps = vec![
        CreateStep::DescriptorSetLayout,
        CreateStep::PipelineLayout,
        CreateStep::CreateModule(0),
        CreateStep::CreateModule(1),
        CreateStep::CreateModule(2),
        CreateStep::Pipeline,
        CreateStep::DestroyModule(0),
        CreateStep::DestroyModule(1),
        CreateStep::DestroyModule(2),
        CreateStep::QueryHandles,
        CreateStep::UploadTable,
        CreateStep::QueryTableAddress,
        CreateStep::DescriptorPool,
        CreateStep::DescriptorSet,
        CreateStep::WriteDescriptors,
    ];
    assert(steps@ =~= create_order());
    steps
}

/// Step `b` needs step `a`: layouts and modules come before the pipeline, the pipeline before its
/// handles, the handles before the table and the table before its address; descriptors are written
/// to a set that comes from a pool and has a layout.
pub open spec fn creation_needs(b: CreateStep, a: CreateStep) -> bool {
    match b {
        CreateStep::PipelineLayout => a == CreateStep::DescriptorSetLayout,
        CreateStep::Pipeline => a == CreateStep::PipelineLayout || a is CreateModule,
        CreateStep::DestroyModule(_) => a == CreateStep::Pipeline,
        CreateStep::QueryHandles => a == CreateStep::Pipeline,
        CreateStep::UploadTable => a == CreateStep::QueryHandles,
        CreateStep::QueryTableAddress => a == CreateStep::UploadTable,
        CreateStep::DescriptorSet => a == CreateStep::DescriptorPool || a
            == CreateStep::DescriptorSetLayout,
        CreateStep::WriteDescriptors => a == CreateStep::DescriptorSet,
        _ => false,
    }
}

/// The place of each step in the creation order.
spec fn create_place(step: CreateStep) -> int {
    match step {
        CreateStep::DescriptorSetLayout => 0,
        CreateStep::PipelineLayout => 1,
        CreateStep::CreateModule(k) => 2 + k,
        CreateStep::Pipeline => 5,
        CreateStep::DestroyModule(k) => 6 + k,
        CreateStep::QueryHandles => 9,
        CreateStep::UploadTable => 10,
        CreateStep::QueryTableAddress => 11,
        CreateStep::DescriptorPool => 12,
        CreateStep::DescriptorSet => 13,
        CreateStep::WriteDescriptors => 14,
    }
}

proof fn lemma_create_places(i: int)
    requires
        0 <= i < create_order().len(),
    ensures
        create_place(create_order()[i]) == i,
        create_order()[i] matches CreateStep::CreateModule(k) ==> k < 3,
        create_order()[i] matches CreateStep::DestroyModule(k) ==> k < 3,
{
    assert(i == 0 || i == 1 || i == 2 || i == 3 || i == 4 || i == 5 || i == 6 || i == 7 || i == 8
        || i == 9 || i == 10 || i == 11 || i == 12 || i == 13 || i == 14);
}

/// No step of the creation is taken before those that it needs, and all steps are taken, with one
/// module for each shader stage.
pub proof fn law_creation_order(i: int, j: int, step: CreateStep)
    requires
        0 <= i < create_order().len(),
        0 <= j < create_order().len(),
    ensures
        creation_needs(create_order()[j], create_order()[i]) ==> i < j,
        create_order().contains(step) <==> match step {
            CreateStep::CreateModule(k) => k < stages_spec().len(),
            CreateStep::DestroyModule(k) => k < stages_spec().len(),
            _ => true,
        },
{
    let order = create_order();
    lemma_create_places(i);
    lemma_create_places(j);
    let there = match step {
        CreateStep::CreateModule(k) => k < 3,
        CreateStep::DestroyModule(k) => k < 3,
        _ => true,
    };
    if there {
        let place = create_place(step);
        assert(place == 0 || place == 1 || place == 2 || place == 3 || place == 4 || place == 5
            || place == 6 || place == 7 || place == 8 || place == 9 || place == 10 || place == 11
            || place == 12 || place == 13 || place == 14);
        assert(order[place] == step);
    }
    if order.contains(step) {
        let k = choose|k: int| 0 <= k < order.len() && order[k] == step;
        lemma_create_places(k);
    }
}

/// The module of each stage is there when the pipeline is created, and is released after that. No
/// step occurs twice, so each module is released once.
pub proof fn law_modules_are_released(stage: int)
    requires
        0 <= stage < stages_spec().len(),
    ensures
        create_order().no_duplicates(),
        exists|i: int, p: int, j: int|
            #![trigger create_order()[i], create_order()[p], create_order()[j]]
            {
                &&& 0 <= i < p < j < create_order().len()
                &&& create_order()[i] == CreateStep::CreateModule(stage as usize)
                &&& create_order()[p] == CreateStep::Pipeline
                &&& create_order()[j] == CreateStep::DestroyModule(stage as usize)
            },
{
    let order = create_order();
    assert(order[2 + stage] == CreateStep::CreateModule(stage as usize));
    assert(order[5] == CreateStep::Pipeline);
    assert(order[6 + stage] == CreateStep::DestroyModule(stage as usize));
}

/// The objects that the pipeline consists of.
#[derive(Clone, Copy, Debug, PartialEq, Eq, Structural)]
pub enum PipelineObject {
    Pipeline,
    Layout,
    DescriptorSetLayout,
    DescriptorPool,
    SbtBuffer,
    SbtMemory,
}

/// The pipeline goes before its layout, the layout before the set layout that it refers to, and
/// the table's buffer before its memory.
pub open spec fn destroy_order() -> Seq<PipelineObject> {
    seq![
        PipelineObject::Pipeline,
        PipelineObject::Layout,
        PipelineObject::DescriptorSetLayout,
        PipelineObject::DescriptorPool,
        PipelineObject::SbtBuffer,
        PipelineObject::SbtMemory,
    ]
}

/// The objects are destroyed once each: the pipeline before its layout, the layout before the set
/// layout that it refers to, and the table's buffer before its memory.
pub proof fn law_pipeline_destroy_order(i: int, j: int)
    requires
        0 <= i < destroy_order().len(),
        0 <= j < destroy_order().len(),
    ensures
        destroy_order().len() == 6,
        destroy_order()[i] == PipelineObject::Pipeline && destroy_order()[j]
            == PipelineObject::Layout ==> i < j,
        destroy_order()[i] == PipelineObject::Layout && destroy_order()[j]
            == PipelineObject::DescriptorSetLayout ==> i < j,
        destroy_order()[i] == PipelineObject::SbtBuffer && destroy_order()[j]
            == PipelineObject::SbtMemory ==> i < j,
        destroy_order()[i] == destroy_order()[j] ==> i == j,
{
    assert(i == 0 || i == 1 || i == 2 || i == 3 || i == 4 || i == 5);
    assert(j == 0 || j == 1 || j == 2 || j == 3 || j == 4 || j == 5);
}

/// The shader binding table of a pipeline.
pub struct RtPipeline {
    pub layout: SbtLayout,
    pub table: Vec<u8>,
}

impl RtPipeline {
    /// Lays out and fills the shader binding table of a pipeline. The sizes and alignments are
    /// those of the device, `handles` are the handles of the pipeline's three shader groups.
    pub fn create(
        handle_size: usize,
        handle_align: usize,
        base_align: usize,
        handles: &[u8],
    ) -> (pipeline: RtPipeline)
        requires
            handle_align > 0,
            base_align > 0,
            handle_size + handle_align <= usize::MAX,
            crate::memory::align_up_spec(handle_size, handle_align) + base_align <= usize::MAX,
            layout_spec(handle_size, handle_align, base_align).wf(),
            3 * handle_size <= handles@.len(),
        ensures
            pipeline.layout == layout_spec(handle_size, handle_align, base_align),
            pipeline.table@ == table_spec(pipeline.layout, handles@),
            pipeline.layout.handle_size == handle_size,
            pipeline.table@.len() == 3 * pipeline.layout.region_size,
            forall|k: int|
                #![trigger handles@[k]]
                0 <= k < handle_size ==> pipeline.table@[k] == handles@[k]
                    && pipeline.table@[pipeline.layout.region_size + k] == handles@[handle_size + k]
                    && pipeline.table@[2 * pipeline.layout.region_size + k] == handles@[2
                    * handle_size + k],
    {
        let layout = SbtLayout::new(handle_size, handle_align, base_align);
        let table = build_sbt(&layout, handles);
        proof {
            assert forall|k: int| #![trigger handles@[k]] 0 <= k < handle_size implies table@[k]
                == handles@[k] && table@[layout.region_size + k] == handles@[handle_size + k]
                && table@[2 * layout.region_size + k] == handles@[2 * handle_size + k] by {
                law_handles_stay_in_order(layout, handles@, k);
            }
        }
        RtPipeline { layout, table }
    }

    /// The buffer into which the table is uploaded. The device finds the table by its address.
    pub fn table_request(&self) -> (r: BufferRequest)
        ensures
            r.size == self.table@.len(),
            r.usage == BUFFER_SHADER_BINDING_TABLE | BUFFER_SHADER_DEVICE_ADDRESS,
            r.memory == MEMORY_HOST_VISIBLE | MEMORY_HOST_COHERENT,
    {
        upload_buffer(
            BUFFER_SHADER_BINDING_TABLE | BUFFER_SHADER_DEVICE_ADDRESS,
            self.table.len() as u64,
        )
    }

    /// The order in which the pipeline's objects are destroyed.
    pub fn destroy(&self) -> (order: Vec<PipelineObject>)
        ensures
            order@ == destroy_order(),
    {
        let order = vec![
            PipelineObject::Pipeline,
            PipelineObject::Layout,
            PipelineObject::DescriptorSetLayout,
            PipelineObject::DescriptorPool,
            PipelineObject::SbtBuffer,
            PipelineObject::SbtMemory,
        ];
        assert(order@ =~= destroy_order());
        order
    }
}

} // verus!
