//! Points in arena space.

use vstd::prelude::*;

verus! {

/// A point in arena space. The origin is the arena's center; `x` grows to the
/// right and `y` grows upward. Coordinates are integer distances.
#[derive(Clone, Copy, PartialEq, Eq, Structural, Debug)]
pub struct Position {
    pub x: i64,
    pub y: i64,
}

impl Position {
    /// The arena's center, where the snake starts.
    pub open spec fn spec_origin() -> Position {
        Position { x: 0, y: 0 }
    }

    pub fn origin() -> (p: Position)
        ensures
            p == Position::spec_origin(),
    {
        Position { x: 0, y: 0 }
    }

    /// Whether the point lies inside an arena of the given extents: each
    /// coordinate stays within half the extent of its axis, either side of
    /// the center.
    pub open spec fn in_bounds(self, width: u32, height: u32) -> bool {
        &&& -(width as int / 2) <= self.x <= width as int / 2
        &&& -(height as int / 2) <= self.y <= height as int / 2
    }
}

} // verus!
