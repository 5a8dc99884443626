//! Points in 3-space with fixed-point coordinates.

use vstd::prelude::*;

use crate::scaled::COORD_LIMIT;

verus! {

/// A point in 3-space.  Each coordinate is a fixed-point value measured in
/// units of `1 / scaled::SCALE`, so the point `(-0.25, 1.5, 0.0)` is written
/// `Vec3 { x: -250_000, y: 1_500_000, z: 0 }`.
#[derive(Clone, Copy, Debug, PartialEq, Eq, Structural)]
pub struct Vec3 {
    pub x: i64,
    pub y: i64,
    pub z: i64,
}

impl Vec3 {
    /// Every coordinate lies within `COORD_LIMIT`, the range the library's
    /// interpolation arithmetic supports without overflow.
    pub open spec fn in_range(self) -> bool {
        &&& -COORD_LIMIT <= self.x <= COORD_LIMIT
        &&& -COORD_LIMIT <= self.y <= COORD_LIMIT
        &&& -COORD_LIMIT <= self.z <= COORD_LIMIT
    }

    pub fn new(x: i64, y: i64, z: i64) -> (v: Vec3)
        ensures
            v.x == x,
            v.y == y,
            v.z == z,
    {
        Vec3 { x, y, z }
    }
}

} // verus!
