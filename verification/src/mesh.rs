//! Face-culled triangle mesh of a set of voxels.

use crate::voxel::Voxel;
use std::collections::HashSet;
use vstd::prelude::*;

verus! {

/// A mesh vertex: a corner of the unit cube at a voxel's position. Its coordinates are the sums of
/// the two.
#[derive(Clone, Copy, Debug, PartialEq, Eq)]
pub struct Vertex {
    pub base: [i32; 3],
    pub corner: [i32; 3],
}

/// What the shader looks up for a face.
#[derive(Clone, Copy, Debug, PartialEq, Eq)]
pub struct FaceData<C> {
    pub color: C,
    pub normal_idx: u32,
}

/// A face-culled triangle mesh.
///
/// Each face consists of two triangles (four vertices, six indices). `face_data[i]` belongs to
/// face `i`, that is to the triangles `2 * i` and `2 * i + 1`.
pub struct TerrainMesh<C> {
    pub vertices: Vec<Vertex>,
    pub indices: Vec<u32>,
    pub face_data: Vec<FaceData<C>>,
}

/// A side of the unit cube: the way to the neighbour behind it and its four corners.
#[derive(Clone, Copy, Debug, PartialEq, Eq)]
pub struct FaceDef {
    pub offset: [i32; 3],
    pub corners: [[i32; 3]; 4],
}

/// The outward normal of side `f`: -Z, +Z, -X, +X, -Y, +Y.
pub open spec fn face_normal(f: int) -> (int, int, int) {
    if f == 0 {
        (0, 0, -1)
    } else if f == 1 {
        (0, 0, 1)
    } else if f == 2 {
        (-1, 0, 0)
    } else if f == 3 {
        (1, 0, 0)
    } else if f == 4 {
        (0, -1, 0)
    } else {
        (0, 1, 0)
    }
}

/// The corners of side `f`, in the order in which they are emitted.
pub open spec fn face_corners(f: int) -> Seq<(int, int, int)> {
    if f == 0 {
        seq![(0, 0, 0), (1, 0, 0), (1, 1, 0), (0, 1, 0)]
    } else if f == 1 {
        seq![(1, 0, 1), (0, 0, 1), (0, 1, 1), (1, 1, 1)]
    } else if f == 2 {
        seq![(0, 0, 1), (0, 0, 0), (0, 1, 0), (0, 1, 1)]
    } else if f == 3 {
        seq![(1, 0, 0), (1, 0, 1), (1, 1, 1), (1, 1, 0)]
    } else if f == 4 {
        seq![(0, 0, 0), (0, 0, 1), (1, 0, 1), (1, 0, 0)]
    } else {
        seq![(0, 1, 0), (1, 1, 0), (1, 1, 1), (0, 1, 1)]
    }
}

/// The definition of side `f` of the unit cube.
pub fn face_def(f: usize) -> (def: FaceDef)
    requires
        f < 6,
    ensures
        crate::voxel::point(def.offset) == face_normal(f as int),
        forall|k: int|
            0 <= k < 4 ==> crate::voxel::point(#[trigger] def.corners[k]) == face_corners(
                f as int,
            )[k],
        forall|k: int|
            0 <= k < 4 ==> {
                let c = #[trigger] def.corners[k];
                &&& 0 <= c[0] <= 1
                &&& 0 <= c[1] <= 1
                &&& 0 <= c[2] <= 1
                &&& f == 0 || f == 1 ==> c[2] == f
                &&& f == 2 || f == 3 ==> c[0] == f - 2
                &&& f == 4 || f == 5 ==> c[1] == f - 4
            },
{
    if f == 0 {
        FaceDef { offset: [0, 0, -1], corners: [[0, 0, 0], [1, 0, 0], [1, 1, 0], [0, 1, 0]] }
    } else if f == 1 {
        FaceDef { offset: [0, 0, 1], corners: [[1, 0, 1], [0, 0, 1], [0, 1, 1], [1, 1, 1]] }
    } else if f == 2 {
        FaceDef { offset: [-1, 0, 0], corners: [[0, 0, 1], [0, 0, 0], [0, 1, 0], [0, 1, 1]] }
    } else if f == 3 {
        FaceDef { offset: [1, 0, 0], corners: [[1, 0, 0], [1, 0, 1], [1, 1, 1], [1, 1, 0]] }
    } else if f == 4 {
        FaceDef { offset: [0, -1, 0], corners: [[0, 0, 0], [0, 0, 1], [1, 0, 1], [1, 0, 0]] }
    } else {
        FaceDef { offset: [0, 1, 0], corners: [[0, 1, 0], [1, 1, 0], [1, 1, 1], [0, 1, 1]] }
    }
}

/// The neighbour of cell `p` behind side `f`.
pub open spec fn neighbour(p: (int, int, int), f: int) -> (int, int, int) {
    let n = face_normal(f);
    (p.0 + n.0, p.1 + n.1, p.2 + n.2)
}

/// Some voxel fills cell `p`.
pub open spec fn occupied<C>(voxels: Seq<Voxel<C>>, p: (int, int, int)) -> bool {
    exists|i: int| 0 <= i < voxels.len() && (#[trigger] voxels[i]).cell() == p
}

/// Side `s % 6` of voxel `s / 6` borders on air.
pub open spec fn exposed<C>(voxels: Seq<Voxel<C>>, s: int) -> bool {
    !occupied(voxels, neighbour(voxels[s / 6].cell(), s % 6))
}

/// The exposed sides among the first `n`, counted voxel by voxel.
pub open spec fn visible_sides<C>(voxels: Seq<Voxel<C>>, n: int) -> Seq<int>
    decreases n,
{
    if n <= 0 {
        Seq::empty()
    } else if exposed(voxels, n - 1) {
        visible_sides(voxels, n - 1).push(n - 1)
    } else {
        visible_sides(voxels, n - 1)
    }
}

/// The corner that the `k`-th index of a face refers to: a quad is split into two triangles.
pub open spec fn quad_index(k: int) -> int {
    if k == 0 || k == 3 {
        0
    } else if k == 1 {
        1
    } else if k == 2 || k == 4 {
        2
    } else {
        3
    }
}

/// All exposed sides of the voxels.
pub open spec fn mesh_sides<C>(voxels: Seq<Voxel<C>>) -> Seq<int> {
    visible_sides(voxels, 6 * voxels.len() as int)
}

impl<C> TerrainMesh<C> {
    /// The mesh has one face for each of the given sides, in their order, and nothing else.
    pub open spec fn shows(self, voxels: Seq<Voxel<C>>, sides: Seq<int>) -> bool {
        &&& self.vertices@.len() == 4 * sides.len()
        &&& self.indices@.len() == 6 * sides.len()
        &&& self.face_data@.len() == sides.len()
        &&& forall|t: int|
            0 <= t < sides.len() ==> self.face_shows(t, voxels, #[trigger] sides[t])
    }

    /// Face `t` of the mesh is side `s % 6` of voxel `s / 6`: its four vertices, its six indices
    /// and its face data. Vertex numbers are counted modulo the range of an index.
    pub open spec fn face_shows(self, t: int, voxels: Seq<Voxel<C>>, s: int) -> bool {
        let voxel = voxels[s / 6];
        &&& forall|k: int|
            0 <= k < 4 ==> {
                &&& (#[trigger] self.vertices@[4 * t + k]).base == voxel.position
                &&& crate::voxel::point(self.vertices@[4 * t + k].corner) == face_corners(
                    s % 6,
                )[k]
            }
        &&& forall|k: int|
            0 <= k < 6 ==> #[trigger] self.indices@[6 * t + k] == (4 * t) % 0x1_0000_0000
                + quad_index(k)
        &&& self.face_data@[t] == (FaceData { color: voxel.color, normal_idx: (s % 6) as u32 })
    }
}

/// The neighbours of a voxel's cell have coordinates that fit their type.
pub open spec fn has_room<C>(voxel: Voxel<C>) -> bool {
    forall|a: int| 0 <= a < 3 ==> i32::MIN < #[trigger] voxel.position[a] < i32::MAX
}

/// A number of its own for each cell.
spec fn cell_key(p: (int, int, int)) -> int {
    ((p.0 + 0x8000_0000) * 0x1_0000_0000 + (p.1 + 0x8000_0000)) * 0x1_0000_0000 + (p.2
        + 0x8000_0000)
}

/// The coordinates of the cell fit their type.
spec fn in_range(p: (int, int, int)) -> bool {
    &&& i32::MIN <= p.0 <= i32::MAX
    &&& i32::MIN <= p.1 <= i32::MAX
    &&& i32::MIN <= p.2 <= i32::MAX
}

proof fn lemma_cell_key(p: (int, int, int), q: (int, int, int))
    requires
        in_range(p),
        in_range(q),
        cell_key(p) == cell_key(q),
    ensures
        p == q,
{
}

fn key(x: i32, y: i32, z: i32) -> (k: u128)
    ensures
        k == cell_key((x as int, y as int, z as int)),
{
    let a: u128 = (x as i64 + 0x8000_0000) as u128;
    let b: u128 = (y as i64 + 0x8000_0000) as u128;
    let c: u128 = (z as i64 + 0x8000_0000) as u128;
    (a * 0x1_0000_0000 + b) * 0x1_0000_0000 + c
}

/// The set holds the numbers of the cells of the first `n` voxels.
spec fn holds_cells<C>(set: Set<u128>, voxels: Seq<Voxel<C>>, n: int) -> bool {
    forall|k: u128| #[trigger]
        set.contains(k) <==> exists|i: int|
            0 <= i < n && cell_key((#[trigger] voxels[i]).cell()) == k
}

fn occupied_cells<C>(voxels: &[Voxel<C>]) -> (cells: HashSet<u128>)
    ensures
        holds_cells(cells@, voxels@, voxels@.len() as int),
{
    broadcast use vstd::std_specs::hash::group_hash_axioms;

    let mut cells: HashSet<u128> = HashSet::new();
    let mut i: usize = 0;
    while i < voxels.len()
        invariant
            i <= voxels@.len(),
            holds_cells(cells@, voxels@, i as int),
        decreases voxels@.len() - i,
    {
        let p = voxels[i].position;
        let k = key(p[0], p[1], p[2]);
        let ghost before = cells@;
        cells.insert(k);
        proof {
            assert(voxels@[i as int].cell() == (p[0] as int, p[1] as int, p[2] as int));
            assert forall|m: u128| #[trigger] cells@.contains(m) <==> exists|j: int|
                0 <= j < i + 1 && cell_key((#[trigger] voxels@[j]).cell()) == m by {
                if m == k {
                    assert(cell_key(voxels@[i as int].cell()) == m);
                } else {
                    assert(cells@.contains(m) <==> before.contains(m));
                }
            }
        }
        i += 1;
    }
    cells
}

/// Appends one side of a voxel to a mesh.
fn emit_face<C: Copy>(
    mesh: &mut TerrainMesh<C>,
    voxel: &Voxel<C>,
    f: usize,
    Ghost(voxels): Ghost<Seq<Voxel<C>>>,
    Ghost(sides): Ghost<Seq<int>>,
    Ghost(s): Ghost<int>,
)
    requires
        f < 6,
        s >= 0,
        s % 6 == f,
        voxels[s / 6] == *voxel,
        old(mesh).shows(voxels, sides),
    ensures
        final(mesh).shows(voxels, sides.push(s)),
{
    let ghost t = sides.len() as int;
    let def = face_def(f);
    let v0: u32 = (mesh.vertices.len() as u64 % 0x1_0000_0000) as u32;
    assert((4 * t) % 0x1_0000_0000 == 4 * (t % 0x4000_0000));
    mesh.vertices.push(Vertex { base: voxel.position, corner: def.corners[0] });
    mesh.vertices.push(Vertex { base: voxel.position, corner: def.corners[1] });
    mesh.vertices.push(Vertex { base: voxel.position, corner: def.corners[2] });
    mesh.vertices.push(Vertex { base: voxel.position, corner: def.corners[3] });
    mesh.indices.push(v0);
    mesh.indices.push(v0 + 1);
    mesh.indices.push(v0 + 2);
    mesh.indices.push(v0);
    mesh.indices.push(v0 + 2);
    mesh.indices.push(v0 + 3);
    mesh.face_data.push(FaceData { color: voxel.color, normal_idx: f as u32 });
    proof {
        let pushed = sides.push(s);
        assert forall|u: int| 0 <= u < pushed.len() implies mesh.face_shows(
            u,
            voxels,
            #[trigger] pushed[u],
        ) by {
            if u < t {
                assert(old(mesh).face_shows(u, voxels, sides[u]));
                assert forall|k: int| 0 <= k < 4 implies {
                    &&& (#[trigger] mesh.vertices@[4 * u + k]).base == voxels[pushed[u] / 6].position
                    &&& crate::voxel::point(mesh.vertices@[4 * u + k].corner) == face_corners(
                        pushed[u] % 6,
                    )[k]
                } by {
                    assert(mesh.vertices@[4 * u + k] == old(mesh).vertices@[4 * u + k]);
                }
                assert forall|k: int| 0 <= k < 6 implies #[trigger] mesh.indices@[6 * u + k] == (4
                    * u) % 0x1_0000_0000 + quad_index(k) by {
                    assert(mesh.indices@[6 * u + k] == old(mesh).indices@[6 * u + k]);
                }
            }
        }
    }
}

/// Builds a face-culled triangle mesh from a voxel list.
///
/// Only faces whose neighbour cell is air (absent from `voxels`) are emitted, eliminating all
/// invisible interior geometry.
pub fn build_terrain_mesh<C: Copy>(voxels: &[Voxel<C>]) -> (mesh: TerrainMesh<C>)
    requires
        forall|i: int| 0 <= i < voxels@.len() ==> has_room(#[trigger] voxels@[i]),
    ensures
        mesh.shows(voxels@, mesh_sides(voxels@)),
{
    broadcast use vstd::std_specs::hash::group_hash_axioms;

    let cells = occupied_cells(voxels);
    let mut mesh: TerrainMesh<C> = TerrainMesh {
        vertices: Vec::new(),
        indices: Vec::new(),
        face_data: Vec::new(),
    };
    let mut i: usize = 0;
    while i < voxels.len()
        invariant
            forall|j: int| 0 <= j < voxels@.len() ==> has_room(#[trigger] voxels@[j]),
            holds_cells(cells@, voxels@, voxels@.len() as int),
            i <= voxels@.len(),
            mesh.shows(voxels@, visible_sides(voxels@, 6 * i)),
        decreases voxels@.len() - i,
    {
        let voxel = &voxels[i];
        let p = voxel.position;
        assert(has_room(voxels@[i as int]));
        let mut f: usize = 0;
        while f < 6
            invariant
                holds_cells(cells@, voxels@, voxels@.len() as int),
                i < voxels@.len(),
                f <= 6,
                *voxel == voxels@[i as int],
                p == voxel.position,
                has_room(*voxel),
                mesh.shows(voxels@, visible_sides(voxels@, 6 * i + f)),
            decreases 6 - f,
        {
            let o = face_def(f).offset;
            let ghost s = 6 * i + f;
            proof {
                assert(i32::MIN < p[0] < i32::MAX);
                assert(i32::MIN < p[1] < i32::MAX);
                assert(i32::MIN < p[2] < i32::MAX);
            }
            let x: i32 = p[0] + o[0];
            let y: i32 = p[1] + o[1];
            let z: i32 = p[2] + o[2];
            let ghost q = neighbour(voxels@[i as int].cell(), f as int);
            let k = key(x, y, z);
            let hidden = cells.contains(&k);
            proof {
                assert(q == (x as int, y as int, z as int));
                lemma_hidden(cells@, voxels@, q, k);
                assert(s / 6 == i && s % 6 == f);
            }
            if !hidden {
                emit_face(
                    &mut mesh,
                    voxel,
                    f,
                    Ghost(voxels@),
                    Ghost(visible_sides(voxels@, 6 * i + f)),
                    Ghost(s),
                );
            }
            f += 1;
        }
        i += 1;
    }
    mesh
}

proof fn lemma_hidden<C>(cells: Set<u128>, voxels: Seq<Voxel<C>>, q: (int, int, int), k: u128)
    requires
        holds_cells(cells, voxels, voxels.len() as int),
        in_range(q),
        k == cell_key(q),
    ensures
        cells.contains(k) <==> occupied(voxels, q),
{
    if cells.contains(k) {
        let i = choose|i: int|
            0 <= i < voxels.len() && cell_key((#[trigger] voxels[i]).cell()) == k;
        lemma_cell_key(voxels[i].cell(), q);
    }
    if occupied(voxels, q) {
        let i = choose|i: int| 0 <= i < voxels.len() && (#[trigger] voxels[i]).cell() == q;
        assert(cell_key(voxels[i].cell()) == k);
    }
}

/// The visible sides are the exposed ones, each once, in ascending order.
pub proof fn law_visible_sides<C>(voxels: Seq<Voxel<C>>, n: int)
    requires
        0 <= n,
    ensures
        forall|i: int, j: int|
            #![trigger visible_sides(voxels, n)[i], visible_sides(voxels, n)[j]]
            0 <= i < j < visible_sides(voxels, n).len() ==> visible_sides(voxels, n)[i]
                < visible_sides(voxels, n)[j],
        forall|s: int|
            #![trigger visible_sides(voxels, n).contains(s)]
            visible_sides(voxels, n).contains(s) <==> 0 <= s < n && exposed(voxels, s),
        visible_sides(voxels, n).len() <= n,
    decreases n,
{
    if n > 0 {
        law_visible_sides(voxels, n - 1);
        let before = visible_sides(voxels, n - 1);
        let after = visible_sides(voxels, n);
        assert forall|i: int| 0 <= i < before.len() implies 0 <= #[trigger] before[i] < n - 1 by {
            assert(before.contains(before[i]));
        }
        assert forall|s: int| #[trigger] after.contains(s) <==> 0 <= s < n && exposed(
            voxels,
            s,
        ) by {
            if exposed(voxels, n - 1) {
                if before.contains(s) {
                    let i = choose|i: int| 0 <= i < before.len() && before[i] == s;
                    assert(after[i] == s);
                }
                if s == n - 1 {
                    assert(after[before.len() as int] == s);
                }
                if after.contains(s) && s != n - 1 {
                    let i = choose|i: int| 0 <= i < after.len() && after[i] == s;
                    assert(before[i] == s);
                    assert(before.contains(s));
                }
            }
        }
    }
}

/// The scalar product of two vectors.
pub open spec fn dot(a: (int, int, int), b: (int, int, int)) -> int {
    a.0 * b.0 + a.1 * b.1 + a.2 * b.2
}

/// The vector from `a` to `b`.
pub open spec fn minus(b: (int, int, int), a: (int, int, int)) -> (int, int, int) {
    (b.0 - a.0, b.1 - a.1, b.2 - a.2)
}

/// The vector product.
pub open spec fn cross(a: (int, int, int), b: (int, int, int)) -> (int, int, int) {
    (a.1 * b.2 - a.2 * b.1, a.2 * b.0 - a.0 * b.2, a.0 * b.1 - a.1 * b.0)
}

/// A corner of the unit cube lies on side `f`: half a unit from the cube's centre along the side's
/// normal.
pub open spec fn on_side(c: (int, int, int), f: int) -> bool {
    dot((2 * c.0 - 1, 2 * c.1 - 1, 2 * c.2 - 1), face_normal(f)) == 1
}

/// The coordinate that decides whether a corner of the unit cube lies on a side.
pub proof fn lemma_on_side(c: (int, int, int), f: int)
    requires
        0 <= f < 6,
    ensures
        on_side(c, f) <==> (if f == 0 {
            c.2 == 0
        } else if f == 1 {
            c.2 == 1
        } else if f == 2 {
            c.0 == 0
        } else if f == 3 {
            c.0 == 1
        } else if f == 4 {
            c.1 == 0
        } else {
            c.1 == 1
        }),
{
    let n = face_normal(f);
    lemma_unit_product(2 * c.0 - 1, n.0);
    lemma_unit_product(2 * c.1 - 1, n.1);
    lemma_unit_product(2 * c.2 - 1, n.2);
}

/// Multiplication by a unit or by zero.
spec fn unit_product(x: int, y: int) -> int {
    if y == 0 {
        0
    } else if y == 1 {
        x
    } else {
        -x
    }
}

proof fn lemma_unit_product(x: int, y: int)
    requires
        -1 <= y <= 1,
    ensures
        x * y == unit_product(x, y),
{
    assert(x * y == unit_product(x, y)) by (nonlinear_arith)
        requires
            -1 <= y <= 1,
    ;
}

/// The vector product of vectors whose second factor has components of at most one.
proof fn lemma_unit_cross(a: (int, int, int), b: (int, int, int))
    requires
        -1 <= b.0 <= 1,
        -1 <= b.1 <= 1,
        -1 <= b.2 <= 1,
    ensures
        cross(a, b) == (
            unit_product(a.1, b.2) - unit_product(a.2, b.1),
            unit_product(a.2, b.0) - unit_product(a.0, b.2),
            unit_product(a.0, b.1) - unit_product(a.1, b.0),
        ),
{
    lemma_unit_product(a.1, b.2);
    lemma_unit_product(a.2, b.1);
    lemma_unit_product(a.2, b.0);
    lemma_unit_product(a.0, b.2);
    lemma_unit_product(a.0, b.1);
    lemma_unit_product(a.1, b.0);
}

/// The corners of a side lie on that side of the unit cube.
pub proof fn law_corners_lie_on_their_side(f: int, k: int)
    requires
        0 <= f < 6,
        0 <= k < 4,
    ensures
        on_side(face_corners(f)[k], f),
{
    lemma_on_side(face_corners(f)[k], f);
}

/// Both triangles of every side are wound the same way: clockwise when seen from outside.
pub proof fn law_sides_are_wound_alike(f: int)
    requires
        0 <= f < 6,
    ensures
        ({
            let c = face_corners(f);
            let n = face_normal(f);
            let inward = (-n.0, -n.1, -n.2);
            &&& cross(minus(c[1], c[0]), minus(c[2], c[0])) == inward
            &&& cross(minus(c[2], c[0]), minus(c[3], c[0])) == inward
        }),
{
    let c = face_corners(f);
    lemma_unit_cross(minus(c[1], c[0]), minus(c[2], c[0]));
    lemma_unit_cross(minus(c[2], c[0]), minus(c[3], c[0]));
}

/// The side that faces side `f` from the neighbouring cell.
pub open spec fn opposite(f: int) -> int {
    if f % 2 == 0 {
        f + 1
    } else {
        f - 1
    }
}

/// Where two voxels touch, neither shows the side at which they touch.
pub proof fn law_touching_sides_are_hidden<C>(voxels: Seq<Voxel<C>>, i: int, j: int, f: int)
    requires
        0 <= i < voxels.len(),
        0 <= j < voxels.len(),
        0 <= f < 6,
        voxels[j].cell() == neighbour(voxels[i].cell(), f),
    ensures
        voxels[i].cell() == neighbour(voxels[j].cell(), opposite(f)),
        !exposed(voxels, 6 * i + f),
        !exposed(voxels, 6 * j + opposite(f)),
        !mesh_sides(voxels).contains(6 * i + f),
        !mesh_sides(voxels).contains(6 * j + opposite(f)),
{
    let g = opposite(f);
    assert((6 * i + f) / 6 == i && (6 * i + f) % 6 == f);
    assert((6 * j + g) / 6 == j && (6 * j + g) % 6 == g);
    law_visible_sides(voxels, 6 * voxels.len() as int);
}

/// The face data of a triangle is found at half its number: the three indices of triangle `q`
/// refer to vertices of face `q / 2`, and these exist.
pub proof fn law_face_lookup<C>(mesh: TerrainMesh<C>, voxels: Seq<Voxel<C>>, q: int, k: int)
    requires
        mesh.shows(voxels, mesh_sides(voxels)),
        mesh.vertices@.len() <= 0x1_0000_0000,
        0 <= q,
        3 * q + 3 <= mesh.indices@.len(),
        0 <= k < 3,
    ensures
        0 <= q / 2 < mesh.face_data@.len(),
        mesh.indices@[3 * q + k] < mesh.vertices@.len(),
        mesh.indices@[3 * q + k] as int / 4 == q / 2,
{
    let sides = mesh_sides(voxels);
    law_visible_sides(voxels, 6 * voxels.len() as int);
    let t = q / 2;
    let m = 3 * (q % 2) + k;
    assert(mesh.face_shows(t, voxels, sides[t]));
    assert(3 * q + k == 6 * t + m);
    assert(mesh.indices@[6 * t + m] == (4 * t) % 0x1_0000_0000 + quad_index(m));
}

/// A triangle's vertices lie on the side of the voxel that its face data names.
pub proof fn law_triangles_lie_on_their_side<C>(
    mesh: TerrainMesh<C>,
    voxels: Seq<Voxel<C>>,
    q: int,
    k: int,
)
    requires
        mesh.shows(voxels, mesh_sides(voxels)),
        mesh.vertices@.len() <= 0x1_0000_0000,
        0 <= q,
        3 * q + 3 <= mesh.indices@.len(),
        0 <= k < 3,
    ensures
        ({
            let vertex = mesh.vertices@[mesh.indices@[3 * q + k] as int];
            let side = mesh_sides(voxels)[q / 2];
            &&& vertex.base == voxels[side / 6].position
            &&& mesh.face_data@[q / 2].color == voxels[side / 6].color
            &&& exposed(voxels, side)
            &&& on_side(
                crate::voxel::point(vertex.corner),
                mesh.face_data@[q / 2].normal_idx as int,
            )
        }),
{
    law_face_lookup(mesh, voxels, q, k);
    let sides = mesh_sides(voxels);
    let t = q / 2;
    law_visible_sides(voxels, 6 * voxels.len() as int);
    assert(sides.contains(sides[t]));
    assert(mesh.face_shows(t, voxels, sides[t]));
    let v = mesh.indices@[3 * q + k] as int;
    let m = v - 4 * t;
    assert(mesh.vertices@[4 * t + m].base == voxels[sides[t] / 6].position);
    law_corners_lie_on_their_side(sides[t] % 6, m);
}

/// The normals, in the order in which the shaders number them.
pub proof fn law_normals()
    ensures
        face_normal(0) == (0int, 0int, -1int),
        face_normal(1) == (0int, 0int, 1int),
        face_normal(2) == (-1int, 0int, 0int),
        face_normal(3) == (1int, 0int, 0int),
        face_normal(4) == (0int, -1int, 0int),
        face_normal(5) == (0int, 1int, 0int),
{
}

/// The four corners of a side are four different corners of the unit cube, and all that lie on the
/// side: sides 0 and 1 bound the cube along the third axis, 2 and 3 along the first, 4 and 5 along
/// the second, the even ones from below and the odd ones from above.
pub proof fn law_sides_are_squares_of_the_cube(f: int, c: (int, int, int))
    requires
        0 <= f < 6,
    ensures
        face_corners(f).len() == 4,
        face_corners(f).no_duplicates(),
        face_corners(f).contains(c) <==> {
            &&& 0 <= c.0 <= 1
            &&& 0 <= c.1 <= 1
            &&& 0 <= c.2 <= 1
            &&& f == 0 || f == 1 ==> c.2 == f
            &&& f == 2 || f == 3 ==> c.0 == f - 2
            &&& f == 4 || f == 5 ==> c.1 == f - 4
        },
{
    let s = face_corners(f);
    if s.contains(c) {
        let k = choose|k: int| 0 <= k < s.len() && s[k] == c;
        assert(k == 0 || k == 1 || k == 2 || k == 3);
    }
    assert(s[0] == c || s[1] == c || s[2] == c || s[3] == c ==> s.contains(c));
}

/// Where a side's corners begin: upright sides with the two corners at the foot, level sides with the
/// corner nearest to the origin. Together with the way a side is wound this fixes the order of its
/// corners.
pub proof fn law_sides_begin_at_the_foot(f: int)
    requires
        0 <= f < 6,
    ensures
        f < 4 ==> face_corners(f)[0].1 == 0 && face_corners(f)[1].1 == 0,
        f < 4 ==> face_corners(f)[2].1 == 1 && face_corners(f)[3].1 == 1,
        f >= 4 ==> face_corners(f)[0].0 == 0 && face_corners(f)[0].2 == 0,
        f >= 4 ==> face_corners(f)[2].0 == 1 && face_corners(f)[2].2 == 1,
{
}

/// A side shows exactly if no voxel stands in the cell next to it.
pub proof fn law_sides_show_to_the_air<C>(voxels: Seq<Voxel<C>>, i: int, f: int)
    requires
        0 <= i < voxels.len(),
        0 <= f < 6,
    ensures
        mesh_sides(voxels).contains(6 * i + f) <==> forall|j: int|
            #![trigger voxels[j]]
            0 <= j < voxels.len() ==> {
                let p = voxels[i].position;
                let q = voxels[j].position;
                ||| q[0] != p[0] + (if f == 3 {
                    1int
                } else if f == 2 {
                    -1int
                } else {
                    0int
                })
                ||| q[1] != p[1] + (if f == 5 {
                    1int
                } else if f == 4 {
                    -1int
                } else {
                    0int
                })
                ||| q[2] != p[2] + (if f == 1 {
                    1int
                } else if f == 0 {
                    -1int
                } else {
                    0int
                })
            },
{
    law_visible_sides(voxels, 6 * voxels.len() as int);
    assert((6 * i + f) / 6 == i && (6 * i + f) % 6 == f);
    let q = neighbour(voxels[i].cell(), f);
    if occupied(voxels, q) {
        let j = choose|j: int| 0 <= j < voxels.len() && (#[trigger] voxels[j]).cell() == q;
        assert(voxels[j].cell() == q);
    }
    assert forall|j: int|
        #![trigger voxels[j]]
        0 <= j < voxels.len() && !occupied(voxels, q) implies voxels[j].cell() != q by {}
}

/// A face of the mesh is drawn as the square side of its voxel that its face data names: four
/// different corners of the voxel's unit cube, all of them on that side, with the voxel's colour.
pub proof fn law_faces_are_sides_of_voxels<C>(mesh: TerrainMesh<C>, voxels: Seq<Voxel<C>>, t: int)
    requires
        mesh.shows(voxels, mesh_sides(voxels)),
        0 <= t < mesh.face_data@.len(),
    ensures
        mesh.vertices@.len() == 4 * mesh.face_data@.len(),
        mesh.indices@.len() == 6 * mesh.face_data@.len(),
        mesh.face_data@.len() == mesh_sides(voxels).len(),
        ({
            let f = mesh.face_data@[t].normal_idx as int;
            let i = mesh_sides(voxels)[t] / 6;
            &&& 0 <= f < 6
            &&& 0 <= i < voxels.len()
            &&& mesh_sides(voxels)[t] == 6 * i + f
            &&& mesh.face_data@[t].color == voxels[i].color
            &&& forall|k: int|
                0 <= k < 4 ==> {
                    let v = #[trigger] mesh.vertices@[4 * t + k];
                    &&& v.base == voxels[i].position
                    &&& 0 <= v.corner[0] <= 1
                    &&& 0 <= v.corner[1] <= 1
                    &&& 0 <= v.corner[2] <= 1
                    &&& f == 0 || f == 1 ==> v.corner[2] == f
                    &&& f == 2 || f == 3 ==> v.corner[0] == f - 2
                    &&& f == 4 || f == 5 ==> v.corner[1] == f - 4
                }
            &&& forall|k: int, m: int|
                0 <= k < m < 4 ==> (#[trigger] mesh.vertices@[4 * t + k]).corner != (
                #[trigger] mesh.vertices@[4 * t + m]).corner
        }),
{
    let sides = mesh_sides(voxels);
    law_visible_sides(voxels, 6 * voxels.len() as int);
    assert(sides.contains(sides[t]));
    assert(mesh.face_shows(t, voxels, sides[t]));
    let f = sides[t] % 6;
    assert forall|k: int| 0 <= k < 4 implies crate::voxel::point(
        (#[trigger] mesh.vertices@[4 * t + k]).corner,
    ) == face_corners(f)[k] by {}
    assert forall|k: int| 0 <= k < 4 implies face_corners(f).contains(
        #[trigger] face_corners(f)[k],
    ) by {}
    law_sides_are_squares_of_the_cube(f, face_corners(f)[0]);
    law_sides_are_squares_of_the_cube(f, face_corners(f)[1]);
    law_sides_are_squares_of_the_cube(f, face_corners(f)[2]);
    law_sides_are_squares_of_the_cube(f, face_corners(f)[3]);
    assert forall|k: int, m: int| 0 <= k < m < 4 implies (#[trigger] mesh.vertices@[4 * t
        + k]).corner != (#[trigger] mesh.vertices@[4 * t + m]).corner by {
        assert(face_corners(f)[k] != face_corners(f)[m]);
    }
}

/// The two triangles of a face split its square along the diagonal from the first to the third
/// vertex. Both turn the same way, with unit cross products that point into the voxel, so they
/// cover the square without overlap.
pub proof fn law_triangles_split_the_square<C>(mesh: TerrainMesh<C>, voxels: Seq<Voxel<C>>, t: int)
    requires
        mesh.shows(voxels, mesh_sides(voxels)),
        0 <= t < mesh.face_data@.len(),
    ensures
        ({
            let first = (4 * t) % 0x1_0000_0000;
            let f = mesh.face_data@[t].normal_idx as int;
            let c = |k: int| crate::voxel::point(mesh.vertices@[4 * t + k].corner);
            let inward = if f == 0 {
                (0int, 0int, 1int)
            } else if f == 1 {
                (0int, 0int, -1int)
            } else if f == 2 {
                (1int, 0int, 0int)
            } else if f == 3 {
                (-1int, 0int, 0int)
            } else if f == 4 {
                (0int, 1int, 0int)
            } else {
                (0int, -1int, 0int)
            };
            &&& mesh.indices@[6 * t] == first
            &&& mesh.indices@[6 * t + 1] == first + 1
            &&& mesh.indices@[6 * t + 2] == first + 2
            &&& mesh.indices@[6 * t + 3] == first
            &&& mesh.indices@[6 * t + 4] == first + 2
            &&& mesh.indices@[6 * t + 5] == first + 3
            &&& cross(minus(c(1), c(0)), minus(c(2), c(0))) == inward
            &&& cross(minus(c(2), c(0)), minus(c(3), c(0))) == inward
        }),
{
    let sides = mesh_sides(voxels);
    law_visible_sides(voxels, 6 * voxels.len() as int);
    assert(sides.contains(sides[t]));
    assert(mesh.face_shows(t, voxels, sides[t]));
    let f = sides[t] % 6;
    law_sides_are_wound_alike(f);
    assert(mesh.indices@[6 * t + 0] == (4 * t) % 0x1_0000_0000 + quad_index(0));
    assert(mesh.indices@[6 * t + 1] == (4 * t) % 0x1_0000_0000 + quad_index(1));
    assert(mesh.indices@[6 * t + 2] == (4 * t) % 0x1_0000_0000 + quad_index(2));
    assert(mesh.indices@[6 * t + 3] == (4 * t) % 0x1_0000_0000 + quad_index(3));
    assert(mesh.indices@[6 * t + 4] == (4 * t) % 0x1_0000_0000 + quad_index(4));
    assert(mesh.indices@[6 * t + 5] == (4 * t) % 0x1_0000_0000 + quad_index(5));
    assert(crate::voxel::point(mesh.vertices@[4 * t + 0].corner) == face_corners(f)[0]);
    assert(crate::voxel::point(mesh.vertices@[4 * t + 1].corner) == face_corners(f)[1]);
    assert(crate::voxel::point(mesh.vertices@[4 * t + 2].corner) == face_corners(f)[2]);
    assert(crate::voxel::point(mesh.vertices@[4 * t + 3].corner) == face_corners(f)[3]);
}

/// The voxels of a generated world can be meshed, and their mesh has few enough vertices for its
/// indices.
pub proof fn law_worlds_can_be_meshed<C>(voxels: Seq<Voxel<C>>)
    requires
        voxels.len() <= crate::terrain::WORLD * crate::terrain::WORLD * crate::terrain::LAYERS,
        forall|i: int|
            0 <= i < voxels.len() ==> crate::terrain::in_world((#[trigger] voxels[i]).cell()),
    ensures
        forall|i: int| 0 <= i < voxels.len() ==> has_room(#[trigger] voxels[i]),
        4 * mesh_sides(voxels).len() <= 0x1_0000_0000,
{
    law_visible_sides(voxels, 6 * voxels.len() as int);
    assert forall|i: int| 0 <= i < voxels.len() implies has_room(#[trigger] voxels[i]) by {
        let p = voxels[i].position;
        assert(crate::terrain::in_world(voxels[i].cell()));
        assert forall|a: int| 0 <= a < 3 implies i32::MIN < #[trigger] p[a] < i32::MAX by {
            assert(a == 0 || a == 1 || a == 2);
        }
    }
}

} // verus!
