//! Procedural terrain: from the noise samples of every column to the voxels of the world.
//!
//! The world is a square of `WORLD` by `WORLD` columns. Each column is filled with stone, dirt
//! and a top layer up to its height; columns of middle height may carry a tree.

use crate::noise::Sample;
use crate::voxel::{rgb, Rgb, Voxel};
use std::collections::HashMap;
use vstd::prelude::*;

verus! {

/// World footprint side length in voxels.
pub const WORLD: i32 = 48;

/// Number of voxel layers that the ground and the trees can reach.
pub const LAYERS: i32 = 20;

/// Words of the numbers that samples are compared with.
pub const QUARTER: u32 = 0x3E80_0000;

pub const THREE_TENTHS: u32 = 0x3E99_999A;

pub const HALF: u32 = 0x3F00_0000;

pub const SIX_TENTHS: u32 = 0x3F19_999A;

pub const THREE_QUARTERS: u32 = 0x3F40_0000;

pub const TREE_THRESHOLD: u32 = 0x3F51_EB85;

/// A value of the height field, limited to the layers from 2 to 18.
pub open spec fn limited(raw: i32) -> int {
    if raw < 2 {
        2
    } else if raw > 18 {
        18
    } else {
        raw as int
    }
}

/// The noise samples of one column.
pub struct ColumnSamples {
    /// The height field at the column, before it is limited.
    pub raw_height: i32,
    pub grass: Sample,
    pub dirt: Sample,
    /// One sample for each layer of the column, from the bottom.
    pub stone: Vec<Sample>,
    pub tree: Sample,
    pub trunk: Sample,
    pub leaf: Sample,
}

impl ColumnSamples {
    /// The layer of the column's top voxel.
    pub open spec fn height(self) -> int {
        limited(self.raw_height)
    }

    /// There is a stone sample for each layer of the column.
    pub open spec fn layered(self) -> bool {
        self.stone@.len() > self.height()
    }

    /// The colour of the column's top voxel.
    pub open spec fn top_color(self) -> Rgb {
        let lush = self.grass.value() > crate::noise::word_value(HALF);
        if self.height() >= 15 {
            if lush {
                Rgb { r: 52, g: 47, b: 38 }
            } else {
                Rgb { r: 58, g: 50, b: 40 }
            }
        } else if self.height() >= 10 {
            if lush {
                Rgb { r: 35, g: 60, b: 28 }
            } else {
                Rgb { r: 42, g: 58, b: 33 }
            }
        } else {
            if lush {
                Rgb { r: 30, g: 65, b: 24 }
            } else {
                Rgb { r: 38, g: 70, b: 28 }
            }
        }
    }

    /// The colour of the dirt below the top voxel.
    pub open spec fn dirt_color(self) -> Rgb {
        if self.dirt.value() > crate::noise::word_value(HALF) {
            Rgb { r: 58, g: 42, b: 28 }
        } else {
            Rgb { r: 50, g: 36, b: 22 }
        }
    }

    /// The colour of the stone in layer `y`.
    pub open spec fn stone_color(self, y: int) -> Rgb {
        if self.stone@[y].value() > crate::noise::word_value(SIX_TENTHS) {
            Rgb { r: 64, g: 50, b: 36 }
        } else if self.stone@[y].value() > crate::noise::word_value(THREE_TENTHS) {
            Rgb { r: 56, g: 43, b: 30 }
        } else {
            Rgb { r: 46, g: 36, b: 24 }
        }
    }

    /// The colour of the ground in layer `y`: one layer of cover, two of dirt, stone below.
    pub open spec fn ground_color(self, y: int) -> Rgb {
        if y == self.height() {
            self.top_color()
        } else if y >= self.height() - 2 {
            self.dirt_color()
        } else {
            self.stone_color(y)
        }
    }

    /// The column carries a tree: only columns of middle height do.
    pub open spec fn has_tree(self) -> bool {
        5 <= self.height() <= 13 && self.tree.value() > crate::noise::word_value(TREE_THRESHOLD)
    }

    /// The number of layers of the tree's trunk.
    pub open spec fn trunk_height(self) -> int {
        2 + self.trunk.doubled()
    }

    /// The layer where the trunk ends and the crown begins.
    pub open spec fn crown_base(self) -> int {
        self.height() + self.trunk_height()
    }

    /// The colour of the tree's leaves: red, orange, yellow or green.
    pub open spec fn leaf_color(self) -> Rgb {
        if self.leaf.value() < crate::noise::word_value(QUARTER) {
            Rgb { r: 86, g: 22, b: 14 }
        } else if self.leaf.value() < crate::noise::word_value(HALF) {
            Rgb { r: 88, g: 54, b: 10 }
        } else if self.leaf.value() < crate::noise::word_value(THREE_QUARTERS) {
            Rgb { r: 86, g: 73, b: 14 }
        } else {
            Rgb { r: 26, g: 64, b: 20 }
        }
    }
}

/// The colour of trunks.
pub open spec fn trunk_color() -> Rgb {
    Rgb { r: 36, g: 25, b: 14 }
}

/// The point lies in the world's footprint.
pub open spec fn in_footprint(p: (int, int, int)) -> bool {
    0 <= p.0 < WORLD && 0 <= p.2 < WORLD
}

/// The point lies in the box of the world.
pub open spec fn in_world(p: (int, int, int)) -> bool {
    in_footprint(p) && 0 <= p.1 < LAYERS
}

/// The first `layers` ground voxels of the column at `(x, z)`.
pub open spec fn ground(x: int, z: int, c: ColumnSamples, layers: int) -> Map<
    (int, int, int),
    Rgb,
> {
    Map::new(
        |p: (int, int, int)| p.0 == x && p.2 == z && 0 <= p.1 < layers,
        |p: (int, int, int)| c.ground_color(p.1),
    )
}

/// A trunk of the given number of layers that stands on layer `base` of the column at `(x, z)`.
pub open spec fn trunk(x: int, z: int, base: int, layers: int) -> Map<(int, int, int), Rgb> {
    Map::new(
        |p: (int, int, int)| p.0 == x && p.2 == z && base < p.1 <= base + layers,
        |p: (int, int, int)| trunk_color(),
    )
}

/// A square of leaves round `(x, z)` in layer `y`, cut off at the edge of the world.
pub open spec fn leaves(x: int, z: int, y: int, radius: int, color: Rgb) -> Map<
    (int, int, int),
    Rgb,
> {
    Map::new(
        |p: (int, int, int)|
            {
                &&& p.1 == y
                &&& x - radius <= p.0 <= x + radius
                &&& z - radius <= p.2 <= z + radius
                &&& in_footprint(p)
            },
        |p: (int, int, int)| color,
    )
}

/// The tree on the column at `(x, z)`: its trunk, and a crown of two wide and one narrow layer.
pub open spec fn tree(x: int, z: int, c: ColumnSamples) -> Map<(int, int, int), Rgb> {
    let top = c.crown_base();
    trunk(x, z, c.height(), c.trunk_height()).union_prefer_right(
        leaves(x, z, top, 2, c.leaf_color()),
    ).union_prefer_right(leaves(x, z, top + 1, 2, c.leaf_color())).union_prefer_right(
        leaves(x, z, top + 2, 1, c.leaf_color()),
    )
}

/// Everything that the column at `(x, z)` puts into the world.
pub open spec fn column(x: int, z: int, c: ColumnSamples) -> Map<(int, int, int), Rgb> {
    if c.has_tree() {
        ground(x, z, c, c.height() + 1).union_prefer_right(tree(x, z, c))
    } else {
        ground(x, z, c, c.height() + 1)
    }
}

/// The world after its first `n` columns. Columns are taken row by row; where they meet, the
/// later one prevails.
pub open spec fn terrain(columns: Seq<ColumnSamples>, n: int) -> Map<(int, int, int), Rgb>
    decreases n,
{
    if n <= 0 {
        Map::empty()
    } else {
        terrain(columns, n - 1).union_prefer_right(
            column((n - 1) / WORLD as int, (n - 1) % WORLD as int, columns[n - 1]),
        )
    }
}

/// The index of the column at `(x, z)`.
pub open spec fn column_index(x: int, z: int) -> int {
    x * WORLD + z
}

/// A tree stays within two columns of its trunk, inside the world, above the ground that it
/// stands on and below the topmost layer.
pub proof fn law_tree_reach(x: int, z: int, c: ColumnSamples, p: (int, int, int))
    requires
        0 <= x < WORLD,
        0 <= z < WORLD,
        c.trunk.wf(),
        c.has_tree(),
        tree(x, z, c).dom().contains(p),
    ensures
        in_footprint(p),
        x - 2 <= p.0 <= x + 2,
        z - 2 <= p.2 <= z + 2,
        c.height() < p.1 <= c.crown_base() + 2,
        p.1 < LAYERS,
{
    crate::noise::lemma_doubled(c.trunk);
}

/// The world is a block of `WORLD` by `WORLD` columns and `LAYERS` layers.
pub proof fn law_world_bounds(columns: Seq<ColumnSamples>, n: int, p: (int, int, int))
    requires
        0 <= n <= WORLD * WORLD,
        n <= columns.len(),
        forall|i: int| 0 <= i < columns.len() ==> (#[trigger] columns[i]).trunk.wf(),
        terrain(columns, n).dom().contains(p),
    ensures
        in_world(p),
    decreases n,
{
    let x = (n - 1) / WORLD as int;
    let z = (n - 1) % WORLD as int;
    let c = columns[n - 1];
    if terrain(columns, n - 1).dom().contains(p) {
        law_world_bounds(columns, n - 1, p);
    } else if c.has_tree() && tree(x, z, c).dom().contains(p) {
        law_tree_reach(x, z, c, p);
    }
}

/// Every column is solid from the bottom of the world up to its height.
pub proof fn law_columns_are_solid(columns: Seq<ColumnSamples>, n: int, x: int, y: int, z: int)
    requires
        0 <= x < WORLD,
        0 <= z < WORLD,
        column_index(x, z) < n <= columns.len(),
        0 <= y <= columns[column_index(x, z)].height(),
    ensures
        terrain(columns, n).dom().contains((x, y, z)),
    decreases n,
{
    if n - 1 == column_index(x, z) {
        assert((n - 1) / WORLD as int == x && (n - 1) % WORLD as int == z);
    } else {
        law_columns_are_solid(columns, n - 1, x, y, z);
    }
}

/// Each voxel comes from the ground of its own column or from a tree, and has the colour that it
/// has there. In particular only trees rise above the ground.
pub proof fn law_voxel_origin(columns: Seq<ColumnSamples>, n: int, p: (int, int, int))
    requires
        0 <= n <= columns.len(),
        terrain(columns, n).dom().contains(p),
    ensures
        ({
            let own = columns[column_index(p.0, p.2)];
            ||| 0 <= column_index(p.0, p.2) < n && 0 <= p.1 <= own.height() && terrain(columns, n)[p]
                == own.ground_color(p.1)
            ||| exists|k: int|
                {
                    &&& 0 <= k < n
                    &&& (#[trigger] columns[k]).has_tree()
                    &&& tree(k / WORLD as int, k % WORLD as int, columns[k]).dom().contains(p)
                    &&& tree(k / WORLD as int, k % WORLD as int, columns[k])[p] == terrain(
                        columns,
                        n,
                    )[p]
                }
        }),
    decreases n,
{
    let x = (n - 1) / WORLD as int;
    let z = (n - 1) % WORLD as int;
    let c = columns[n - 1];
    if !column(x, z, c).dom().contains(p) {
        law_voxel_origin(columns, n - 1, p);
    } else if c.has_tree() && tree(x, z, c).dom().contains(p) {
        assert(columns[n - 1].has_tree());
    } else {
        assert(column_index(p.0, p.2) == n - 1);
    }
}

/// A world without trees is exactly the ground of its columns.
pub proof fn law_bare_world(columns: Seq<ColumnSamples>, p: (int, int, int))
    requires
        columns.len() == WORLD * WORLD,
        forall|i: int| 0 <= i < columns.len() ==> !(#[trigger] columns[i]).has_tree(),
        in_footprint(p),
    ensures
        terrain(columns, WORLD * WORLD).dom().contains(p) <==> 0 <= p.1 <= columns[column_index(
            p.0,
            p.2,
        )].height(),
        0 <= p.1 <= columns[column_index(p.0, p.2)].height() ==> terrain(
            columns,
            WORLD * WORLD,
        )[p] == columns[column_index(p.0, p.2)].ground_color(p.1),
{
    if 0 <= p.1 <= columns[column_index(p.0, p.2)].height() {
        law_columns_are_solid(columns, WORLD * WORLD, p.0, p.1, p.2);
    }
    if terrain(columns, WORLD * WORLD).dom().contains(p) {
        law_voxel_origin(columns, WORLD * WORLD, p);
    }
}

/// A world has at most as many voxels as its box has cells.
pub proof fn law_world_size(columns: Seq<ColumnSamples>, voxels: Seq<Voxel<Rgb>>)
    requires
        columns.len() == WORLD * WORLD,
        forall|i: int| 0 <= i < columns.len() ==> (#[trigger] columns[i]).trunk.wf(),
        lists(voxels, terrain(columns, WORLD * WORLD)),
    ensures
        voxels.len() <= WORLD * WORLD * LAYERS,
{
    assert forall|i: int| 0 <= i < voxels.len() implies in_world((#[trigger] voxels[i]).cell()) by {
        law_world_bounds(columns, WORLD * WORLD, voxels[i].cell());
    }
    lemma_few_voxels(voxels);
}

/// Voxels at different places of the world's box are not more than the box has cells.
proof fn lemma_few_voxels(voxels: Seq<Voxel<Rgb>>)
    requires
        forall|i: int| 0 <= i < voxels.len() ==> in_world((#[trigger] voxels[i]).cell()),
        forall|i: int, j: int|
            #![trigger voxels[i], voxels[j]]
            0 <= i < j < voxels.len() ==> voxels[i].cell() != voxels[j].cell(),
    ensures
        voxels.len() <= WORLD * WORLD * LAYERS,
{
    let slots = Seq::new(voxels.len(), |i: int| slot(voxels[i].cell()));
    assert forall|i: int| 0 <= i < slots.len() implies 0 <= #[trigger] slots[i] < CELLS by {
        lemma_slot(voxels[i].cell());
    }
    assert(slots.no_duplicates()) by {
        assert forall|i: int, j: int| 0 <= i < j < slots.len() implies slots[i] != slots[j] by {
            lemma_slot(voxels[i].cell());
            lemma_slot(voxels[j].cell());
            assert(voxels[i].cell() != voxels[j].cell());
        }
    }
    slots.unique_seq_to_set();
    vstd::set_lib::lemma_int_range(0, CELLS as int);
    assert(slots.to_set().subset_of(vstd::set_lib::set_int_range(0, CELLS as int)));
    vstd::set_lib::lemma_len_subset(
        slots.to_set(),
        vstd::set_lib::set_int_range(0, CELLS as int),
    );
}

/// The height of a column is the layer from 2 to 18 that lies nearest to its height field.
pub proof fn law_height_is_nearest(c: ColumnSamples)
    ensures
        2 <= c.raw_height <= 18 ==> c.height() == c.raw_height,
        c.raw_height < 2 ==> c.height() == 2,
        c.raw_height > 18 ==> c.height() == 18,
{
}

/// The numbers that samples are compared with: 0.25, 0.3, 0.5, 0.6, 0.75 and 0.82, each as the
/// nearest number of single precision.
pub proof fn law_thresholds()
    ensures
        ({
            let one = vstd::arithmetic::power2::pow2(149) as int;
            let step = vstd::arithmetic::power2::pow2(125) as int;
            &&& 4 * crate::noise::word_value(QUARTER) == one
            &&& 2 * crate::noise::word_value(HALF) == one
            &&& 4 * crate::noise::word_value(THREE_QUARTERS) == 3 * one
            &&& -step <= 2 * (10 * crate::noise::word_value(THREE_TENTHS) - 3 * one) / 10 <= step
            &&& -step <= 2 * (10 * crate::noise::word_value(SIX_TENTHS) - 6 * one) / 10 <= step
            &&& -step <= 2 * (100 * crate::noise::word_value(TREE_THRESHOLD) - 82 * one) / 100
                <= step
        }),
{
    let unit = vstd::arithmetic::power2::pow2(124) as int;
    vstd::arithmetic::power2::lemma_pow2_pos(124);
    vstd::arithmetic::power2::lemma_pow2_unfold(125);
    vstd::arithmetic::power2::lemma_pow2_adds(124, 25);
    vstd::arithmetic::power2::lemma2_to64();
    assert(vstd::arithmetic::power2::pow2(149) == unit * 0x200_0000);
    assert(crate::noise::word_value(QUARTER) == 0x80_0000 * unit);
    assert(crate::noise::word_value(THREE_TENTHS) == 0x99_999A * unit);
    assert(crate::noise::word_value(HALF) == 0x80_0000 * (2 * unit));
    assert(crate::noise::word_value(SIX_TENTHS) == 0x99_999A * (2 * unit));
    assert(crate::noise::word_value(THREE_QUARTERS) == 0xC0_0000 * (2 * unit));
    assert(crate::noise::word_value(TREE_THRESHOLD) == 0xD1_EB85 * (2 * unit));
}

/// The samples of a column lie between zero and one.
pub open spec fn has_samples(c: ColumnSamples) -> bool {
    &&& c.grass.wf()
    &&& c.dirt.wf()
    &&& c.tree.wf()
    &&& c.trunk.wf()
    &&& c.leaf.wf()
    &&& forall|y: int| 0 <= y < c.stone@.len() ==> (#[trigger] c.stone@[y]).wf()
}

/// The top voxel of a column: bare rock from layer 15 on, moss from layer 10 on, grass below; each
/// in two shades, told apart at one half.
pub proof fn law_cover(c: ColumnSamples)
    requires
        has_samples(c),
    ensures
        ({
            let top = c.ground_color(c.height());
            let dark = c.grass.bits() > 0x3F00_0000u32;
            &&& 15 <= c.raw_height && dark ==> top == Rgb { r: 52, g: 47, b: 38 }
            &&& 15 <= c.raw_height && !dark ==> top == Rgb { r: 58, g: 50, b: 40 }
            &&& 10 <= c.raw_height < 15 && dark ==> top == Rgb { r: 35, g: 60, b: 28 }
            &&& 10 <= c.raw_height < 15 && !dark ==> top == Rgb { r: 42, g: 58, b: 33 }
            &&& c.raw_height < 10 && dark ==> top == Rgb { r: 30, g: 65, b: 24 }
            &&& c.raw_height < 10 && !dark ==> top == Rgb { r: 38, g: 70, b: 28 }
        }),
{
    crate::noise::law_word_order(0x3F00_0000, c.grass.bits());
}

/// Below the top voxel lie two voxels of dirt, in the same shade.
pub proof fn law_dirt_band(c: ColumnSamples, y: int)
    requires
        has_samples(c),
        c.height() - 2 <= y < c.height(),
    ensures
        c.dirt.bits() > 0x3F00_0000 ==> c.ground_color(y) == (Rgb { r: 58, g: 42, b: 28 }),
        c.dirt.bits() <= 0x3F00_0000 ==> c.ground_color(y) == (Rgb { r: 50, g: 36, b: 22 }),
{
    crate::noise::law_word_order(0x3F00_0000, c.dirt.bits());
}

/// Below the dirt lies stone in three shades, which the layer's own sample decides on.
pub proof fn law_stone(c: ColumnSamples, y: int)
    requires
        has_samples(c),
        c.layered(),
        0 <= y < c.height() - 2,
    ensures
        c.stone@[y].bits() > 0x3F19_999A ==> c.ground_color(y) == (Rgb { r: 64, g: 50, b: 36 }),
        0x3E99_999A < c.stone@[y].bits() <= 0x3F19_999A ==> c.ground_color(y) == (Rgb {
            r: 56,
            g: 43,
            b: 30,
        }),
        c.stone@[y].bits() <= 0x3E99_999A ==> c.ground_color(y) == (Rgb { r: 46, g: 36, b: 24 }),
{
    assert(c.stone@[y].wf());
    crate::noise::law_word_order(0x3F19_999A, c.stone@[y].bits());
    crate::noise::law_word_order(0x3E99_999A, c.stone@[y].bits());
}

/// Trees grow exactly on columns of middle height whose sample exceeds the threshold. Their trunks
/// have two to four layers, and their leaves are red, orange, yellow or green, a quarter of the
/// range each.
pub proof fn law_trees(c: ColumnSamples)
    requires
        has_samples(c),
    ensures
        c.has_tree() <==> 5 <= c.raw_height <= 13 && c.tree.bits() > 0x3F51_EB85,
        c.trunk.bits() < 0x3F00_0000 ==> c.trunk_height() == 2,
        0x3F00_0000 <= c.trunk.bits() < 0x3F80_0000 ==> c.trunk_height() == 3,
        c.trunk.bits() == 0x3F80_0000 ==> c.trunk_height() == 4,
        c.leaf.bits() < 0x3E80_0000 ==> c.leaf_color() == (Rgb { r: 86, g: 22, b: 14 }),
        0x3E80_0000 <= c.leaf.bits() < 0x3F00_0000 ==> c.leaf_color() == (Rgb {
            r: 88,
            g: 54,
            b: 10,
        }),
        0x3F00_0000 <= c.leaf.bits() < 0x3F40_0000 ==> c.leaf_color() == (Rgb {
            r: 86,
            g: 73,
            b: 14,
        }),
        c.leaf.bits() >= 0x3F40_0000 ==> c.leaf_color() == (Rgb { r: 26, g: 64, b: 20 }),
{
    crate::noise::law_word_order(0x3F51_EB85, c.tree.bits());
    crate::noise::law_word_order(c.leaf.bits(), 0x3E80_0000);
    crate::noise::law_word_order(c.leaf.bits(), 0x3F00_0000);
    crate::noise::law_word_order(c.leaf.bits(), 0x3F40_0000);
    crate::noise::lemma_doubled(c.trunk);
}

/// The cells of a column: its ground from layer 0 to its height, and with a tree the trunk above it
/// and the crown, two layers of 5 by 5 and a cap of 3 by 3, as far as the world reaches. The crown
/// takes the place of the topmost trunk voxel.
pub proof fn law_column_cells(x: int, z: int, c: ColumnSamples, p: (int, int, int))
    requires
        0 <= x < 48,
        0 <= z < 48,
        has_samples(c),
    ensures
        ({
            let cells = column(x, z, c);
            let own = p.0 == x && p.2 == z;
            let top = c.height() + c.trunk_height();
            let wide = -2 <= p.0 - x <= 2 && -2 <= p.2 - z <= 2 && (p.1 == top || p.1 == top + 1);
            let narrow = -1 <= p.0 - x <= 1 && -1 <= p.2 - z <= 1 && p.1 == top + 2;
            let crown = c.has_tree() && (wide || narrow) && 0 <= p.0 < 48 && 0 <= p.2 < 48;
            let stem = c.has_tree() && own && c.height() < p.1 < top;
            let soil = own && 0 <= p.1 <= c.height();
            &&& cells.dom().contains(p) <==> crown || stem || soil
            &&& crown ==> cells[p] == c.leaf_color()
            &&& stem ==> cells[p] == Rgb { r: 36, g: 25, b: 14 }
            &&& soil ==> cells[p] == c.ground_color(p.1)
        }),
{
    crate::noise::lemma_doubled(c.trunk);
}

/// A cell of the world belongs to the last column that reaches it, in the order of the columns row
/// by row.
pub proof fn law_last_column_prevails(
    columns: Seq<ColumnSamples>,
    n: int,
    p: (int, int, int),
    k: int,
)
    requires
        0 <= k < n <= columns.len(),
        column(k / 48, k % 48, columns[k]).dom().contains(p),
        forall|j: int|
            k < j < n ==> !column(j / 48, j % 48, #[trigger] columns[j]).dom().contains(p),
    ensures
        terrain(columns, n).dom().contains(p),
        terrain(columns, n)[p] == column(k / 48, k % 48, columns[k])[p],
    decreases n,
{
    assert(!(k < n - 1) || !column((n - 1) / 48, (n - 1) % 48, columns[n - 1]).dom().contains(p));
    if k < n - 1 {
        law_last_column_prevails(columns, n - 1, p, k);
    }
}

/// A cell that no column reaches is empty.
pub proof fn law_unreached_cells_are_empty(columns: Seq<ColumnSamples>, n: int, p: (int, int, int))
    requires
        0 <= n <= columns.len(),
        forall|j: int|
            0 <= j < n ==> !column(j / 48, j % 48, #[trigger] columns[j]).dom().contains(p),
    ensures
        !terrain(columns, n).dom().contains(p),
    decreases n,
{
    if n > 0 {
        assert(!column((n - 1) / 48, (n - 1) % 48, columns[n - 1]).dom().contains(p));
        law_unreached_cells_are_empty(columns, n - 1, p);
    }
}

/// A list of voxels that stands for a world holds a voxel with the right colour for each cell of
/// the world, exactly one, and none for other cells.
pub proof fn law_lists_are_faithful(
    voxels: Seq<Voxel<Rgb>>,
    world: Map<(int, int, int), Rgb>,
    p: (int, int, int),
)
    requires
        lists(voxels, world),
    ensures
        world.dom().contains(p) <==> exists|i: int|
            0 <= i < voxels.len() && p == (
                #[trigger] voxels[i].position[0] as int,
                voxels[i].position[1] as int,
                voxels[i].position[2] as int,
            ),
        forall|i: int|
            0 <= i < voxels.len() && p == (
                #[trigger] voxels[i].position[0] as int,
                voxels[i].position[1] as int,
                voxels[i].position[2] as int,
            ) ==> voxels[i].color == world[p],
        forall|i: int, j: int|
            0 <= i < j < voxels.len() ==> !(#[trigger] voxels[i].position[0]
                == #[trigger] voxels[j].position[0] && voxels[i].position[1]
                == voxels[j].position[1] && voxels[i].position[2] == voxels[j].position[2]),
{
    if world.dom().contains(p) {
        let i = choose|i: int| 0 <= i < voxels.len() && (#[trigger] voxels[i]).cell() == p;
        assert(voxels[i].position[0] as int == p.0);
    }
    assert forall|i: int|
        0 <= i < voxels.len() && p == (
            #[trigger] voxels[i].position[0] as int,
            voxels[i].position[1] as int,
            voxels[i].position[2] as int,
        ) implies world.dom().contains(p) && voxels[i].color == world[p] by {
        assert(voxels[i].cell() == p);
    }
    assert forall|i: int, j: int|
        0 <= i < j < voxels.len() implies !(#[trigger] voxels[i].position[0]
        == #[trigger] voxels[j].position[0] && voxels[i].position[1] == voxels[j].position[1]
        && voxels[i].position[2] == voxels[j].position[2]) by {
        assert(voxels[i].cell() != voxels[j].cell());
    }
}

/// Number of cells of the world's box.
const CELLS: u64 = 46_080;

/// The voxels of the world, each under the number of its cell.
struct Grid {
    cells: HashMap<u64, Rgb>,
}

/// The index of a point's cell.
spec fn slot(p: (int, int, int)) -> int {
    (p.0 * 20 + p.1) * 48 + p.2
}

/// The point whose cell has the given index.
spec fn slot_point(i: int) -> (int, int, int) {
    (i / 960, (i / 48) % 20, i % 48)
}

proof fn lemma_slot(p: (int, int, int))
    requires
        in_world(p),
    ensures
        0 <= slot(p) < CELLS,
        slot_point(slot(p)) == p,
{
    let i = slot(p);
    assert(i / 48 == p.0 * 20 + p.1);
    assert(i / 960 == p.0);
}

proof fn lemma_slot_point(i: int)
    requires
        0 <= i < CELLS,
    ensures
        in_world(slot_point(i)),
        slot(slot_point(i)) == i,
{
}

impl Grid {
    spec fn wf(self) -> bool {
        forall|k: u64| #[trigger] self.cells@.contains_key(k) ==> k < CELLS
    }

    spec fn view(self) -> Map<(int, int, int), Rgb> {
        Map::new(
            |p: (int, int, int)| in_world(p) && self.cells@.contains_key(slot(p) as u64),
            |p: (int, int, int)| self.cells@[slot(p) as u64],
        )
    }

    fn new() -> (grid: Grid)
        ensures
            grid.wf(),
            grid@ == Map::<(int, int, int), Rgb>::empty(),
    {
        broadcast use vstd::std_specs::hash::group_hash_axioms;

        let grid = Grid { cells: HashMap::new() };
        assert(grid@ =~= Map::<(int, int, int), Rgb>::empty());
        grid
    }

    fn insert(&mut self, x: i32, y: i32, z: i32, color: Rgb)
        requires
            old(self).wf(),
            in_world((x as int, y as int, z as int)),
        ensures
            final(self).wf(),
            final(self)@ == old(self)@.insert((x as int, y as int, z as int), color),
    {
        broadcast use vstd::std_specs::hash::group_hash_axioms;

        let ghost p = (x as int, y as int, z as int);
        proof {
            lemma_slot(p);
        }
        let k: u64 = (x as u64 * 20 + y as u64) * 48 + z as u64;
        self.cells.insert(k, color);
        proof {
            assert forall|q: (int, int, int)|
                #![trigger in_world(q)]
                in_world(q) implies (slot(q) == slot(p) ==> q == p) && 0 <= slot(q) < CELLS by {
                lemma_slot(q);
            }
            assert(self@ =~= old(self)@.insert(p, color));
        }
    }
}

/// The voxels name each point of the world once, with its colour, and no other point.
pub open spec fn lists(voxels: Seq<Voxel<Rgb>>, world: Map<(int, int, int), Rgb>) -> bool {
    &&& forall|i: int, j: int|
        #![trigger voxels[i], voxels[j]]
        0 <= i < j < voxels.len() ==> voxels[i].cell() != voxels[j].cell()
    &&& forall|i: int|
        #![trigger voxels[i]]
        0 <= i < voxels.len() ==> world.dom().contains(voxels[i].cell())
            && world[voxels[i].cell()] == voxels[i].color
    &&& forall|p: (int, int, int)| #[trigger]
        world.dom().contains(p) ==> exists|i: int|
            0 <= i < voxels.len() && (#[trigger] voxels[i]).cell() == p
}

/// The voxels that a grid holds.
fn collect_voxels(grid: &Grid) -> (voxels: Vec<Voxel<Rgb>>)
    requires
        grid.wf(),
    ensures
        lists(voxels@, grid@),
        voxels@.len() <= WORLD * WORLD * LAYERS,
        forall|i: int| 0 <= i < voxels@.len() ==> in_world((#[trigger] voxels@[i]).cell()),
{
    broadcast use vstd::std_specs::hash::group_hash_axioms;

    let mut voxels: Vec<Voxel<Rgb>> = Vec::new();
    let iter = grid.cells.iter();
    let ghost pairs = vstd::std_specs::iter::IteratorSpec::remaining(&iter);
    for entry in entries: iter
        invariant
            grid.wf(),
            entries.seq() == pairs,
            forall|i: int|
                #![trigger pairs[i]]
                0 <= i < pairs.len() ==> grid.cells@.contains_key(*pairs[i].0)
                    && grid.cells@[*pairs[i].0] == *pairs[i].1,
            voxels@.len() == entries.index(),
            forall|i: int|
                #![trigger voxels@[i]]
                0 <= i < voxels@.len() ==> is_entry(voxels@[i], *pairs[i].0, *pairs[i].1),
    {
        let k: u64 = *entry.0;
        assert(grid.cells@.contains_key(*pairs[entries.index()].0));
        let x: i32 = (k / 960) as i32;
        let y: i32 = (k / 48 % 20) as i32;
        let z: i32 = (k % 48) as i32;
        voxels.push(Voxel { position: [x, y, z], color: *entry.1 });
    }
    proof {
        assert forall|i: int| 0 <= i < voxels@.len() implies in_world(
            (#[trigger] voxels@[i]).cell(),
        ) && slot(voxels@[i].cell()) == *pairs[i].0 by {
            lemma_slot_point(*pairs[i].0 as int);
        }
        assert forall|i: int, j: int|
            #![trigger voxels@[i], voxels@[j]]
            0 <= i < j < voxels@.len() implies voxels@[i].cell() != voxels@[j].cell() by {
            assert(pairs[i] != pairs[j]);
        }
        assert forall|p: (int, int, int)| #[trigger] grid@.dom().contains(p) implies exists|i: int|
            0 <= i < voxels@.len() && (#[trigger] voxels@[i]).cell() == p by {
            lemma_slot(p);
            let k = slot(p) as u64;
            assert(grid.cells@.contains_key(k));
            let i = choose|i: int| 0 <= i < pairs.len() && pairs[i] == (&k, &grid.cells@[k]);
            assert(voxels@[i].cell() == p);
        }
        lemma_few_voxels(voxels@);
    }
    voxels
}

/// The voxel of an entry of the grid.
spec fn is_entry(voxel: Voxel<Rgb>, key: u64, color: Rgb) -> bool {
    voxel.cell() == slot_point(key as int) && voxel.color == color
}

/// Generates the full terrain world from the samples of its columns, which are given row by row:
/// the column at `(x, z)` has index `x * WORLD + z`.
///
/// No position occurs twice: where trees meet the ground or each other, the voxel that was placed
/// last stays. The voxels come in no particular order.
pub fn generate_terrain(columns: &Vec<ColumnSamples>) -> (voxels: Vec<Voxel<Rgb>>)
    requires
        columns@.len() == WORLD * WORLD,
        forall|i: int| 0 <= i < columns@.len() ==> (#[trigger] columns@[i]).layered(),
    ensures
        lists(voxels@, terrain(columns@, WORLD * WORLD)),
        voxels@.len() <= WORLD * WORLD * LAYERS,
        forall|i: int| 0 <= i < voxels@.len() ==> in_world((#[trigger] voxels@[i]).cell()),
{
    let mut grid = Grid::new();
    let mut x: i32 = 0;
    while x < WORLD
        invariant
            grid.wf(),
            columns@.len() == WORLD * WORLD,
            forall|i: int| 0 <= i < columns@.len() ==> (#[trigger] columns@[i]).layered(),
            0 <= x <= WORLD,
            grid@ == terrain(columns@, x * WORLD),
        decreases WORLD - x,
    {
        let mut z: i32 = 0;
        while z < WORLD
            invariant
                grid.wf(),
                columns@.len() == WORLD * WORLD,
                forall|i: int| 0 <= i < columns@.len() ==> (#[trigger] columns@[i]).layered(),
                0 <= x < WORLD,
                0 <= z <= WORLD,
                grid@ == terrain(columns@, x * WORLD + z),
            decreases WORLD - z,
        {
            let ghost before = grid@;
            let n: usize = (x * WORLD + z) as usize;
            let c = &columns[n];
            assert(columns@[n as int].layered());
            let height = limit_height(c.raw_height);
            fill_ground(&mut grid, x, z, c, height);
            let tall = c.tree.exceeds(TREE_THRESHOLD);
            if 5 <= height && height <= 13 && tall {
                plant_tree(&mut grid, x, z, c, height);
            }
            z += 1;
            proof {
                assert(n as int / WORLD as int == x && n as int % WORLD as int == z - 1);
                assert(grid@ =~= before.union_prefer_right(column(x as int, z - 1, *c)));
            }
        }
        x += 1;
    }
    collect_voxels(&grid)
}

/// The height of a column whose height field has the given value.
fn limit_height(raw: i32) -> (height: i32)
    ensures
        height == limited(raw),
{
    if raw < 2 {
        2
    } else if raw > 18 {
        18
    } else {
        raw
    }
}

/// Fills the ground of a column.
fn fill_ground(grid: &mut Grid, x: i32, z: i32, c: &ColumnSamples, height: i32)
    requires
        old(grid).wf(),
        0 <= x < WORLD,
        0 <= z < WORLD,
        c.layered(),
        height == c.height(),
    ensures
        final(grid).wf(),
        final(grid)@ == old(grid)@.union_prefer_right(
            ground(x as int, z as int, *c, c.height() + 1),
        ),
{
    let mut y: i32 = 0;
    proof {
        assert(grid@ =~= grid@.union_prefer_right(ground(x as int, z as int, *c, 0)));
    }
    while y <= height
        invariant
            grid.wf(),
            0 <= x < WORLD,
            0 <= z < WORLD,
            c.layered(),
            height == c.height(),
            0 <= y <= height + 1,
            grid@ == old(grid)@.union_prefer_right(ground(x as int, z as int, *c, y as int)),
        decreases height + 1 - y,
    {
        let color = ground_color(c, height, y);
        grid.insert(x, y, z, color);
        y += 1;
        proof {
            assert(grid@ =~= old(grid)@.union_prefer_right(
                ground(x as int, z as int, *c, y as int),
            ));
        }
    }
}

/// The colour of the ground of a column in layer `y`.
fn ground_color(c: &ColumnSamples, height: i32, y: i32) -> (color: Rgb)
    requires
        c.layered(),
        height == c.height(),
        0 <= y <= height,
    ensures
        color == c.ground_color(y as int),
{
    if y == height {
        let lush = c.grass.exceeds(HALF);
        if height >= 15 {
            if lush {
                rgb(52, 47, 38)
            } else {
                rgb(58, 50, 40)
            }
        } else if height >= 10 {
            if lush {
                rgb(35, 60, 28)
            } else {
                rgb(42, 58, 33)
            }
        } else if lush {
            rgb(30, 65, 24)
        } else {
            rgb(38, 70, 28)
        }
    } else if y >= height - 2 {
        if c.dirt.exceeds(HALF) {
            rgb(58, 42, 28)
        } else {
            rgb(50, 36, 22)
        }
    } else {
        let sample = c.stone[y as usize];
        if sample.exceeds(SIX_TENTHS) {
            rgb(64, 50, 36)
        } else if sample.exceeds(THREE_TENTHS) {
            rgb(56, 43, 30)
        } else {
            rgb(46, 36, 24)
        }
    }
}

/// The colour of a tree's leaves.
fn leaf_color(c: &ColumnSamples) -> (color: Rgb)
    ensures
        color == c.leaf_color(),
{
    if c.leaf.below(QUARTER) {
        rgb(86, 22, 14)
    } else if c.leaf.below(HALF) {
        rgb(88, 54, 10)
    } else if c.leaf.below(THREE_QUARTERS) {
        rgb(86, 73, 14)
    } else {
        rgb(26, 64, 20)
    }
}

/// Puts a square of leaves into the grid.
fn fill_leaves(grid: &mut Grid, x: i32, z: i32, y: i32, radius: i32, color: Rgb)
    requires
        old(grid).wf(),
        0 <= x < WORLD,
        0 <= z < WORLD,
        0 <= y < LAYERS,
        0 <= radius <= 2,
    ensures
        final(grid).wf(),
        final(grid)@ == old(grid)@.union_prefer_right(
            leaves(x as int, z as int, y as int, radius as int, color),
        ),
{
    let ghost full = leaves(x as int, z as int, y as int, radius as int, color);
    let mut lx: i32 = x - radius;
    let ghost mut part = full.restrict(
        Set::new(|p: (int, int, int)| p.0 < lx),
    );
    proof {
        assert(grid@ =~= grid@.union_prefer_right(part));
    }
    while lx <= x + radius
        invariant
            grid.wf(),
            0 <= x < WORLD,
            0 <= z < WORLD,
            0 <= y < LAYERS,
            0 <= radius <= 2,
            x - radius <= lx <= x + radius + 1,
            full == leaves(x as int, z as int, y as int, radius as int, color),
            part == full.restrict(Set::new(|p: (int, int, int)| p.0 < lx)),
            grid@ == old(grid)@.union_prefer_right(part),
        decreases x + radius + 1 - lx,
    {
        let mut lz: i32 = z - radius;
        proof {
            assert(part =~= full.restrict(
                Set::new(|p: (int, int, int)| p.0 < lx || (p.0 == lx && p.2 < lz)),
            ));
        }
        while lz <= z + radius
            invariant
                grid.wf(),
                0 <= x < WORLD,
                0 <= z < WORLD,
                0 <= y < LAYERS,
                0 <= radius <= 2,
                x - radius <= lx <= x + radius,
                z - radius <= lz <= z + radius + 1,
                full == leaves(x as int, z as int, y as int, radius as int, color),
                part == full.restrict(
                    Set::new(|p: (int, int, int)| p.0 < lx || (p.0 == lx && p.2 < lz)),
                ),
                grid@ == old(grid)@.union_prefer_right(part),
            decreases z + radius + 1 - lz,
        {
            if 0 <= lx && lx < WORLD && 0 <= lz && lz < WORLD {
                grid.insert(lx, y, lz, color);
            }
            lz += 1;
            proof {
                part = full.restrict(
                    Set::new(|p: (int, int, int)| p.0 < lx || (p.0 == lx && p.2 < lz)),
                );
                assert(grid@ =~= old(grid)@.union_prefer_right(part));
            }
        }
        proof {
            assert(part =~= full.restrict(Set::new(|p: (int, int, int)| p.0 < lx + 1)));
        }
        lx += 1;
    }
    proof {
        assert(part =~= full);
    }
}

/// Plants the tree of a column.
fn plant_tree(grid: &mut Grid, x: i32, z: i32, c: &ColumnSamples, height: i32)
    requires
        old(grid).wf(),
        0 <= x < WORLD,
        0 <= z < WORLD,
        height == c.height(),
        c.has_tree(),
    ensures
        final(grid).wf(),
        final(grid)@ == old(grid)@.union_prefer_right(tree(x as int, z as int, *c)),
{
    let trunk_h: i32 = 2 + c.trunk.double();
    let mut ty: i32 = 1;
    proof {
        assert(grid@ =~= grid@.union_prefer_right(trunk(x as int, z as int, height as int, 0)));
    }
    while ty <= trunk_h
        invariant
            grid.wf(),
            0 <= x < WORLD,
            0 <= z < WORLD,
            5 <= height <= 13,
            2 <= trunk_h <= 4,
            1 <= ty <= trunk_h + 1,
            grid@ == old(grid)@.union_prefer_right(
                trunk(x as int, z as int, height as int, ty - 1),
            ),
        decreases trunk_h + 1 - ty,
    {
        let color = rgb(36, 25, 14);
        grid.insert(x, height + ty, z, color);
        ty += 1;
        proof {
            assert(grid@ =~= old(grid)@.union_prefer_right(
                trunk(x as int, z as int, height as int, ty - 1),
            ));
        }
    }
    let color = leaf_color(c);
    let top: i32 = height + trunk_h;
    fill_leaves(grid, x, z, top, 2, color);
    fill_leaves(grid, x, z, top + 1, 2, color);
    fill_leaves(grid, x, z, top + 2, 1, color);
    proof {
        assert(grid@ =~= old(grid)@.union_prefer_right(tree(x as int, z as int, *c)));
    }
}

} // verus!
