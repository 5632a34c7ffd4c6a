//! The 2D point type and the fixed-point scale shared by the whole crate.

use vstd::prelude::*;

verus! {

/// Micro-units per game coordinate unit: every coordinate in this crate is an
/// integer count of millionths of a unit.
pub const MICRO: i64 = 1_000_000;

/// Largest magnitude (in micro-units) a coordinate handed to the generators
/// may have; keeps all the integer arithmetic in range.
pub const MAX_COORD: i64 = 1_000_000_000_000_000;

/// Coordinate system to represent positions and velocities, in micro-units.
#[derive(Debug, Copy, Clone, PartialEq, Eq, Structural)]
pub struct Coordinates {
    pub x: i64,
    pub y: i64,
}

impl Coordinates {
    /// The origin: both components zero.
    pub fn origin() -> (r: Coordinates)
        ensures
            r.x == 0 && r.y == 0,
    {
        Coordinates { x: 0, y: 0 }
    }

    /// Both components within `MAX_COORD` in magnitude.
    pub open spec fn bounded(self) -> bool {
        -MAX_COORD <= self.x <= MAX_COORD && -MAX_COORD <= self.y <= MAX_COORD
    }
}

impl Default for Coordinates {
    /// The default coordinate is the origin.
    fn default() -> (r: Coordinates)
        ensures
            r.x == 0 && r.y == 0,
    {
        Coordinates { x: 0, y: 0 }
    }
}

} // verus!
