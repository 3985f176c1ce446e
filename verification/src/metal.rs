//! Decisions of the Metal backend: the unit cube and its instances, the size of the output and
//! the thread groups that cover it.

use crate::accel::transform_columns;
use crate::voxel::Voxel;
use vstd::prelude::*;

verus! {

/// Threads of a group along each side of the image.
pub const GROUP_SIDE: u64 = 8;

/// The corners of the unit cube.
pub open spec fn cube_corners() -> Seq<(int, int, int)> {
    seq![
        (0, 0, 0),
        (1, 0, 0),
        (0, 1, 0),
        (1, 1, 0),
        (0, 0, 1),
        (1, 0, 1),
        (0, 1, 1),
        (1, 1, 1),
    ]
}

/// The triangles of the unit cube, three corners each; two triangles make a side. The sides come
/// in the order -Z, +Z, -X, +X, -Y, +Y.
pub open spec fn cube_triangles() -> Seq<u16> {
    seq![
        0, 1, 3, 0, 3, 2,
        4, 6, 7, 4, 7, 5,
        0, 4, 6, 0, 6, 2,
        1, 3, 7, 1, 7, 5,
        0, 5, 4, 0, 1, 5,
        2, 6, 7, 2, 7, 3,
    ]
}

/// The corners of the unit cube.
pub fn cube_vertices() -> (vertices: Vec<[i32; 3]>)
    ensures
        vertices@.len() == cube_corners().len(),
        forall|i: int|
            0 <= i < vertices@.len() ==> crate::voxel::point(#[trigger] vertices@[i])
                == cube_corners()[i],
        forall|i: int|
            0 <= i < 8 ==> {
                let v = #[trigger] vertices@[i];
                v[0] == i % 2 && v[1] == i / 2 % 2 && v[2] == i / 4
            },
{
    vec![
        [0, 0, 0],
        [1, 0, 0],
        [0, 1, 0],
        [1, 1, 0],
        [0, 0, 1],
        [1, 0, 1],
        [0, 1, 1],
        [1, 1, 1],
    ]
}

/// The triangles of the unit cube.
pub fn cube_indices() -> (indices: Vec<u16>)
    ensures
        indices@ == cube_triangles(),
        indices@ == seq![
            0u16, 1, 3, 0, 3, 2,
            4, 6, 7, 4, 7, 5,
            0, 4, 6, 0, 6, 2,
            1, 3, 7, 1, 7, 5,
            0, 5, 4, 0, 1, 5,
            2, 6, 7, 2, 7, 3,
        ],
{
    let indices: Vec<u16> = vec![
        0, 1, 3, 0, 3, 2,
        4, 6, 7, 4, 7, 5,
        0, 4, 6, 0, 6, 2,
        1, 3, 7, 1, 7, 5,
        0, 5, 4, 0, 1, 5,
        2, 6, 7, 2, 7, 3,
    ];
    assert(indices@ =~= cube_triangles());
    indices
}

/// Triangle `q` lies on side `q / 2` of the cube, so that the shader finds the normal of a hit at
/// half the number of the triangle.
pub proof fn law_cube_sides(q: int, k: int)
    requires
        0 <= q < 12,
        0 <= k < 3,
    ensures
        cube_triangles().len() == 36,
        cube_triangles()[3 * q + k] < cube_corners().len(),
        crate::mesh::on_side(cube_corners()[cube_triangles()[3 * q + k] as int], q / 2),
{
    crate::mesh::lemma_on_side(cube_corners()[cube_triangles()[3 * q + k] as int], q / 2);
}

/// The two triangles of a side together reach all corners of the side.
pub proof fn law_cube_sides_are_covered(c: int, f: int)
    requires
        0 <= c < 8,
        0 <= f < 6,
        crate::mesh::on_side(cube_corners()[c], f),
    ensures
        exists|k: int| 0 <= k < 6 && #[trigger] cube_triangles()[6 * f + k] == c,
{
    crate::mesh::lemma_on_side(cube_corners()[c], f);
    let t = cube_triangles();
    assert(t[6 * f + 0] == c || t[6 * f + 1] == c || t[6 * f + 2] == c || t[6 * f + 3] == c || t[6
        * f + 4] == c || t[6 * f + 5] == c);
}

/// The corners are the eight corners of the unit cube, each once: the bits of a corner's number are
/// its coordinates.
pub proof fn law_cube_corners(c: int)
    requires
        0 <= c < 8,
    ensures
        cube_corners().len() == 8,
        cube_corners()[c] == (c % 2, c / 2 % 2, c / 4),
{
    assert(c == 0 || c == 1 || c == 2 || c == 3 || c == 4 || c == 5 || c == 6 || c == 7);
}

/// The two triangles of a side split its square: they share the ends of a diagonal, and beside them
/// each has one corner of its own.
pub proof fn law_cube_triangles_split_the_sides(f: int) -> (places: (int, int, int, int, int, int))
    requires
        0 <= f < 6,
    ensures
        ({
            let t = cube_triangles();
            let (a, b, own, a2, b2, own2) = places;
            &&& cube_triangles().len() == 36
            &&& 0 <= a < 3 && 0 <= b < 3 && 0 <= own < 3 && a != b && b != own && a != own
            &&& 3 <= a2 < 6 && 3 <= b2 < 6 && 3 <= own2 < 6 && a2 != b2 && b2 != own2 && a2 != own2
            &&& t[6 * f + a] == t[6 * f + a2]
            &&& t[6 * f + b] == t[6 * f + b2]
            &&& t[6 * f + own] != t[6 * f + own2]
            &&& t[6 * f + own] != t[6 * f + a] && t[6 * f + own] != t[6 * f + b]
            &&& t[6 * f + own2] != t[6 * f + a] && t[6 * f + own2] != t[6 * f + b]
            &&& {
                let p = cube_corners()[t[6 * f + a] as int];
                let q = cube_corners()[t[6 * f + b] as int];
                ||| p.0 != q.0 && p.1 != q.1
                ||| p.1 != q.1 && p.2 != q.2
                ||| p.2 != q.2 && p.0 != q.0
            }
        }),
{
    let t = cube_triangles();
    assert(f == 0 || f == 1 || f == 2 || f == 3 || f == 4 || f == 5);
    if f == 4 {
        // 0, 5, 4 and 0, 1, 5.
        (0, 1, 2, 3, 5, 4)
    } else {
        // a, b, c and a, c, d.
        (0, 2, 1, 3, 4, 5)
    }
}

/// The buffers that hold the cube.
#[derive(Clone, Copy, Debug, PartialEq, Eq, Structural)]
pub struct CubeBuffers {
    /// Bytes from one vertex to the next.
    pub vertex_stride: u64,
    pub vertex_bytes: u64,
    pub index_bytes: u64,
    pub triangle_count: u64,
    /// Hits need no test of their own.
    pub opaque: bool,
}

/// The sizes of the buffers that hold the cube: three four-byte coordinates for each vertex, two
/// bytes for each index, three indices for each triangle.
pub fn cube_buffers(vertices: &[[i32; 3]], indices: &[u16]) -> (sizes: CubeBuffers)
    requires
        12 * vertices@.len() <= u64::MAX,
        2 * indices@.len() <= u64::MAX,
    ensures
        sizes.vertex_stride == 12,
        sizes.vertex_bytes == 12 * vertices@.len(),
        sizes.index_bytes == 2 * indices@.len(),
        sizes.triangle_count == indices@.len() as int / 3,
        sizes.opaque,
{
    CubeBuffers {
        vertex_stride: 12,
        vertex_bytes: vertices.len() as u64 * 12,
        index_bytes: indices.len() as u64 * 2,
        triangle_count: indices.len() as u64 / 3,
        opaque: true,
    }
}

/// An instance of the unit cube.
#[derive(Clone, Copy, Debug, PartialEq, Eq)]
pub struct CubeInstance {
    /// An affine map, as four columns of three rows.
    pub transform: [[i32; 3]; 4],
    pub opaque: bool,
    pub disable_culling: bool,
    pub mask: u32,
    pub function_table_offset: u32,
    pub structure_index: u32,
}

/// The instance of a voxel: the unit cube moved to the voxel's cell, opaque and never culled.
pub open spec fn is_cube_instance_of<C>(instance: CubeInstance, voxel: Voxel<C>) -> bool {
    &&& forall|r: int, c: int|
        0 <= r < 3 && 0 <= c < 4 ==> #[trigger] instance.transform[c][r]
            == crate::accel::translation_rows(voxel.cell())[4 * r + c]
    &&& instance.opaque
    &&& instance.disable_culling
    &&& instance.mask == 0xFF
    &&& instance.function_table_offset == 0
    &&& instance.structure_index == 0
}

/// An instance moves each point of the cube by its voxel's position and keeps the cube's shape; it is
/// opaque, seen by all rays, never culled, and an instance of the one structure there is.
pub proof fn law_cube_instances_stand_in_their_cells<C>(
    instance: CubeInstance,
    voxel: Voxel<C>,
    r: int,
    c: int,
)
    requires
        is_cube_instance_of(instance, voxel),
        0 <= r < 3,
        0 <= c < 3,
    ensures
        instance.transform[c][r] == (if r == c {
            1int
        } else {
            0int
        }),
        instance.transform[3][r] == voxel.position[r],
        instance.opaque,
        instance.disable_culling,
        instance.mask == 255,
        instance.function_table_offset == 0,
        instance.structure_index == 0,
{
    let rows = crate::accel::translation_rows(voxel.cell());
    assert(instance.transform[c][r] == rows[4 * r + c]);
    assert(instance.transform[3][r] == rows[4 * r + 3]);
    assert(r == 0 || r == 1 || r == 2);
    assert(c == 0 || c == 1 || c == 2);
    assert(voxel.cell() == crate::voxel::point(voxel.position));
}

/// One instance of the cube for each voxel, in the order of the voxels.
pub fn cube_instances<C>(voxels: &[Voxel<C>]) -> (r: Vec<CubeInstance>)
    ensures
        r@.len() == voxels@.len(),
        forall|i: int|
            #![trigger r@[i]]
            0 <= i < r@.len() ==> is_cube_instance_of(r@[i], voxels@[i]),
        forall|i: int|
            #![trigger r@[i]]
            0 <= i < r@.len() ==> {
                &&& r@[i].opaque && r@[i].disable_culling
                &&& r@[i].mask == 0xFF
                &&& r@[i].function_table_offset == 0
                &&& r@[i].structure_index == 0
            },
{
    let mut r: Vec<CubeInstance> = Vec::new();
    let mut i: usize = 0;
    while i < voxels.len()
        invariant
            i <= voxels@.len(),
            r@.len() == i,
            forall|k: int|
                #![trigger r@[k]]
                0 <= k < i ==> is_cube_instance_of(r@[k], voxels@[k]),
        decreases voxels@.len() - i,
    {
        let transform = transform_columns(voxels[i].aabb_min());
        r.push(
            CubeInstance {
                transform,
                opaque: true,
                disable_culling: true,
                mask: 0xFF,
                function_table_offset: 0,
                structure_index: 0,
            },
        );
        i += 1;
    }
    r
}

/// A number of thread groups along each axis.
#[derive(Clone, Copy, Debug, PartialEq, Eq, Structural)]
pub struct ThreadGroups {
    pub width: u64,
    pub height: u64,
    pub depth: u64,
}

/// The least number of groups that cover `pixels` pixels.
pub open spec fn groups_for(pixels: u64) -> int {
    (pixels + GROUP_SIDE - 1) / GROUP_SIDE as int
}

/// The thread groups cover every pixel, and with one group less they would not.
pub proof fn law_groups_cover_the_image(pixels: u64)
    ensures
        groups_for(pixels) * GROUP_SIDE >= pixels,
        pixels > 0 ==> (groups_for(pixels) - 1) * GROUP_SIDE < pixels,
        pixels == 0 ==> groups_for(pixels) == 0,
{
}

/// What a frame dispatches and draws: rays are traced into the output texture, and a triangle that
/// covers the screen copies the texture to the drawable.
#[derive(Clone, Copy, Debug, PartialEq, Eq, Structural)]
pub struct DrawPlan {
    pub groups: ThreadGroups,
    /// The threads of each group.
    pub threads: ThreadGroups,
    /// The places where the tracing kernel finds the output texture, the instances and the camera.
    pub output_index: u64,
    pub structure_index: u64,
    pub camera_index: u64,
    /// The place where the copying shader finds the output texture.
    pub source_index: u64,
    /// The vertices of the triangle.
    pub first_vertex: u64,
    pub vertex_count: u64,
    /// What was in the drawable before is not needed; what is drawn is kept.
    pub load: bool,
    pub store: bool,
}

/// The formats of the pixels that the backend works with.
#[derive(Clone, Copy, Debug, PartialEq, Eq, Structural)]
pub enum PixelFormat {
    /// Red, green, blue, alpha: a byte each.
    Rgba8Unorm,
    /// Blue, green, red, alpha: a byte each.
    Bgra8Unorm,
}

/// The layer that the window shows.
#[derive(Clone, Copy, Debug, PartialEq, Eq, Structural)]
pub struct LayerConfig {
    pub format: PixelFormat,
    pub drawable_width: u64,
    pub drawable_height: u64,
    pub presents_with_transaction: bool,
    pub display_sync: bool,
}

/// The texture that rays are traced into.
#[derive(Clone, Copy, Debug, PartialEq, Eq, Structural)]
pub struct OutputTexture {
    pub format: PixelFormat,
    pub width: u64,
    pub height: u64,
    /// Rays are written by one shader and read by another; the host does neither.
    pub shader_write: bool,
    pub shader_read: bool,
    pub private: bool,
}

/// The format that the render pass writes: the pass copies the output texture to a drawable of the
/// layer.
pub fn blit_format() -> (format: PixelFormat)
    ensures
        format == PixelFormat::Bgra8Unorm,
{
    PixelFormat::Bgra8Unorm
}

/// The backend's view of its window: the size of its output in pixels.
#[derive(Clone, Copy, Debug, PartialEq, Eq, Structural)]
pub struct MetalBackend {
    pub width: u64,
    pub height: u64,
}

impl MetalBackend {
    /// A backend for a window of the given size.
    pub fn new(width: u32, height: u32) -> (backend: MetalBackend)
        ensures
            backend.width == width,
            backend.height == height,
    {
        MetalBackend { width: width as u64, height: height as u64 }
    }

    /// The layer: as large as the window, shown in step with the display and not with transactions.
    pub fn layer_config(&self) -> (config: LayerConfig)
        ensures
            config == (LayerConfig {
                format: PixelFormat::Bgra8Unorm,
                drawable_width: self.width,
                drawable_height: self.height,
                presents_with_transaction: false,
                display_sync: true,
            }),
    {
        LayerConfig {
            format: PixelFormat::Bgra8Unorm,
            drawable_width: self.width,
            drawable_height: self.height,
            presents_with_transaction: false,
            display_sync: true,
        }
    }

    /// The texture that rays are traced into: as large as the window.
    pub fn output_texture(&self) -> (texture: OutputTexture)
        ensures
            texture == (OutputTexture {
                format: PixelFormat::Rgba8Unorm,
                width: self.width,
                height: self.height,
                shader_write: true,
                shader_read: true,
                private: true,
            }),
    {
        OutputTexture {
            format: PixelFormat::Rgba8Unorm,
            width: self.width,
            height: self.height,
            shader_write: true,
            shader_read: true,
            private: true,
        }
    }

    /// The thread groups that trace the rays of an image.
    pub open spec fn groups(self) -> ThreadGroups {
        ThreadGroups {
            width: groups_for(self.width) as u64,
            height: groups_for(self.height) as u64,
            depth: 1,
        }
    }

    /// What a frame dispatches and draws.
    pub open spec fn draw_plan(self) -> DrawPlan {
        DrawPlan {
            groups: self.groups(),
            threads: ThreadGroups { width: GROUP_SIDE, height: GROUP_SIDE, depth: 1 },
            output_index: 0,
            structure_index: 0,
            camera_index: 1,
            source_index: 0,
            first_vertex: 0,
            vertex_count: 3,
            load: false,
            store: true,
        }
    }

    /// What to dispatch and draw for a frame, if the layer has handed out a drawable; without one
    /// the frame is left out.
    pub fn draw(&self, has_drawable: bool) -> (r: Option<DrawPlan>)
        requires
            self.width + 7 <= u64::MAX,
            self.height + 7 <= u64::MAX,
        ensures
            r == (if has_drawable {
                Some(self.draw_plan())
            } else {
                None
            }),
            r is Some <==> has_drawable,
            r matches Some(plan) ==> {
                &&& plan.groups.width == (self.width + 7) / 8
                &&& plan.groups.height == (self.height + 7) / 8
                &&& plan.groups.depth == 1
                &&& plan.threads == (ThreadGroups { width: 8, height: 8, depth: 1 })
                &&& plan.output_index == 0 && plan.structure_index == 0 && plan.camera_index == 1
                &&& plan.source_index == 0 && plan.first_vertex == 0 && plan.vertex_count == 3
                &&& !plan.load && plan.store
            },
    {
        if !has_drawable {
            return None;
        }
        let groups = ThreadGroups {
            width: (self.width + 7) / GROUP_SIDE,
            height: (self.height + 7) / GROUP_SIDE,
            depth: 1,
        };
        Some(
            DrawPlan {
                groups,
                threads: ThreadGroups { width: GROUP_SIDE, height: GROUP_SIDE, depth: 1 },
                output_index: 0,
                structure_index: 0,
                camera_index: 1,
                source_index: 0,
                first_vertex: 0,
                vertex_count: 3,
                load: false,
                store: true,
            },
        )
    }

    /// The two sides of the image whose quotient is the aspect ratio; the lower one is never zero.
    pub fn aspect(&self) -> (r: (u64, u64))
        ensures
            r.0 == self.width,
            r.1 == (if self.height == 0 {
                1
            } else {
                self.height
            }),
    {
        (
            self.width,
            if self.height == 0 {
                1
            } else {
                self.height
            },
        )
    }
}

/// The threads of a frame cover the image: along each side as many as there are pixels, and fewer
/// than a group's side more. A frame needs no more than one layer of them.
pub proof fn law_threads_cover_the_image(backend: MetalBackend)
    requires
        backend.width + 7 <= u64::MAX,
        backend.height + 7 <= u64::MAX,
    ensures
        ({
            let plan = backend.draw_plan();
            &&& plan.threads.width == 8 && plan.threads.height == 8
            &&& backend.width <= plan.groups.width * 8 < backend.width + 8
            &&& backend.height <= plan.groups.height * 8 < backend.height + 8
            &&& plan.groups.depth == 1 && plan.threads.depth == 1
            &&& plan.output_index == 0 && plan.structure_index == 0 && plan.camera_index == 1
            &&& plan.source_index == 0
            &&& plan.first_vertex == 0 && plan.vertex_count == 3
            &&& !plan.load && plan.store
        }),
{
}

} // verus!
