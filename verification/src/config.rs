//! Immutable simulation parameters.

use vstd::prelude::*;
use crate::geometry::Position;

verus! {

/// Immutable simulation parameters, loaded once at startup.
///
/// All sizes and the speed must be positive for a configuration to be
/// well-formed; [`crate::parse::parse_config`] only produces well-formed
/// configurations.
#[derive(Clone, Copy, PartialEq, Eq, Structural, Debug)]
pub struct Config {
    /// Width of the snake's head box.
    pub head_width: u32,
    /// Height of the snake's head box.
    pub head_height: u32,
    /// Distance the head travels along an axis in one tick.
    pub speed: u32,
    /// Horizontal extent of the arena.
    pub arena_width: u32,
    /// Vertical extent of the arena.
    pub arena_height: u32,
    /// Width of a food item's box.
    pub food_width: u32,
    /// Height of a food item's box.
    pub food_height: u32,
    /// Period of the repeating food-spawn timer, in milliseconds.
    pub food_spawn_interval_ms: u64,
    /// Whether the body chain shifts forward even on ticks where the head
    /// did not move.
    pub tail_shrink_enabled: bool,
}

impl Config {
    /// All sizes and the speed are positive.
    pub open spec fn wf(self) -> bool {
        &&& self.head_width > 0
        &&& self.head_height > 0
        &&& self.speed > 0
        &&& self.arena_width > 0
        &&& self.arena_height > 0
        &&& self.food_width > 0
        &&& self.food_height > 0
    }

    /// Half the arena's horizontal extent: the largest legal `|x|`.
    pub open spec fn half_width(self) -> int {
        self.arena_width as int / 2
    }

    /// Half the arena's vertical extent: the largest legal `|y|`.
    pub open spec fn half_height(self) -> int {
        self.arena_height as int / 2
    }

    /// Whether a point lies inside this configuration's arena.
    pub open spec fn in_arena(self, p: Position) -> bool {
        p.in_bounds(self.arena_width, self.arena_height)
    }
}

} // verus!
