//! Integer 2D vectors used to address grid cells and to express movement
//! offsets, plus the fixed grid dimensions.

use vstd::prelude::*;

verus! {

/// Width of the particle grid, in cells.
pub const WORLD_WIDTH: i32 = 64;

/// Height of the particle grid, in cells.
pub const WORLD_HEIGHT: i32 = 64;

/// A grid cell address or a relative offset. Components may be negative:
/// offsets point in any direction, and out-of-bounds addresses are legal
/// values (they are clamped or answered with a boundary particle).
#[derive(Clone, Copy, Debug, PartialEq, Eq, Structural)]
pub struct GridVec {
    pub x: i32,
    pub y: i32,
}

impl GridVec {
    /// Pure construction from the two components.
    pub fn new(x: i32, y: i32) -> (r: GridVec)
        ensures
            r == (GridVec { x, y }),
    {
        GridVec { x, y }
    }

    /// Component-wise sum. The bounds only rule out wrap-around of the
    /// machine integers; they hold trivially for in-grid positions and the
    /// small offsets the simulation uses.
    pub fn add(self, other: GridVec) -> (r: GridVec)
        requires
            i32::MIN <= self.x + other.x <= i32::MAX,
            i32::MIN <= self.y + other.y <= i32::MAX,
        ensures
            r.x == self.x + other.x,
            r.y == self.y + other.y,
    {
        GridVec { x: self.x + other.x, y: self.y + other.y }
    }
}

} // verus!
