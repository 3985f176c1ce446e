//! Voxels: cells of the unit lattice with a flat colour.

use vstd::prelude::*;

verus! {

/// An axis-aligned voxel with a flat-shaded colour.
///
/// The geometry does not look at colours, so their representation `C` is left to the caller.
#[derive(Clone, Copy, Debug, PartialEq, Eq)]
pub struct Voxel<C> {
    pub position: [i32; 3],
    pub color: C,
}

/// A colour whose channels are counted in hundredths.
#[derive(Clone, Copy, Debug, PartialEq, Eq)]
pub struct Rgb {
    pub r: u8,
    pub g: u8,
    pub b: u8,
}

/// The colour with the given channels.
pub fn rgb(r: u8, g: u8, b: u8) -> (color: Rgb)
    ensures
        color == (Rgb { r, g, b }),
{
    Rgb { r, g, b }
}

/// The lattice point that an array of three coordinates stands for.
pub open spec fn point(p: [i32; 3]) -> (int, int, int) {
    (p[0] as int, p[1] as int, p[2] as int)
}

impl<C> Voxel<C> {
    /// The lattice point at the voxel's lower corner.
    pub open spec fn cell(self) -> (int, int, int) {
        point(self.position)
    }

    /// The lower corner of the voxel's box; the box reaches one unit further along each axis.
    pub fn aabb_min(&self) -> (corner: [i32; 3])
        ensures
            corner == self.position,
    {
        self.position
    }
}

} // verus!
