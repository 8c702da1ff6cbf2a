//! Axis-aligned box proximity test between the head and a food item.

use vstd::prelude::*;
use crate::config::Config;
use crate::geometry::Position;

verus! {

/// Horizontal collision half-extent: half the sum of the head's and a food
/// item's widths, in integer arithmetic.
pub open spec fn range_x(cfg: Config) -> int {
    (cfg.head_width + cfg.food_width) as int / 2
}

/// Vertical collision half-extent: half the sum of the head's and a food
/// item's heights, in integer arithmetic.
pub open spec fn range_y(cfg: Config) -> int {
    (cfg.head_height + cfg.food_height) as int / 2
}

/// Whether the head at `head` collides with a food item at `food`: on each
/// axis the distance between the centers is at most the collision
/// half-extent. Edge-touching counts as a collision.
pub open spec fn spec_collides(cfg: Config, head: Position, food: Position) -> bool {
    &&& abs_int(food.x - head.x) <= range_x(cfg)
    &&& abs_int(food.y - head.y) <= range_y(cfg)
}

/// The absolute value of an integer.
pub open spec fn abs_int(v: int) -> int {
    if v < 0 { -v } else { v }
}

/// Collision is symmetric: swapping the two positions does not change the
/// outcome, since only the per-axis distances between the centers matter.
pub proof fn lemma_collides_symmetric(cfg: Config, a: Position, b: Position)
    ensures
        spec_collides(cfg, a, b) == spec_collides(cfg, b, a),
{
}

/// Box-overlap test between the head and one food item.
pub fn collides(cfg: &Config, head: Position, food: Position) -> (r: bool)
    requires
        cfg.in_arena(head),
        cfg.in_arena(food),
    ensures
        r == spec_collides(*cfg, head, food),
{
    let rx: u64 = (cfg.head_width as u64 + cfg.food_width as u64) / 2;
    let ry: u64 = (cfg.head_height as u64 + cfg.food_height as u64) / 2;
    let dx = food.x - head.x;
    let dy = food.y - head.y;
    let adx: i64 = if dx < 0 { -dx } else { dx };
    let ady: i64 = if dy < 0 { -dy } else { dy };
    adx as u64 <= rx && ady as u64 <= ry
}

} // verus!
