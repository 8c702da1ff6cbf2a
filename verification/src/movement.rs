//! Translation of directional intents into a clamped head displacement.

use vstd::prelude::*;
use crate::config::Config;
use crate::geometry::Position;

verus! {

/// The set of directional intents active on one tick. Any subset may be
/// active at once; two perpendicular intents give diagonal movement, and two
/// opposite intents each apply (and cancel) independently.
#[derive(Clone, Copy, PartialEq, Eq, Structural, Debug, Default)]
pub struct Intents {
    pub left: bool,
    pub right: bool,
    pub up: bool,
    pub down: bool,
}

impl Intents {
    /// No intent active: the head stays put.
    pub fn none() -> (r: Intents)
        ensures
            r == (Intents { left: false, right: false, up: false, down: false }),
    {
        Intents { left: false, right: false, up: false, down: false }
    }
}

/// Whether a single-axis move from `coord` by `delta` may be applied: the
/// resulting coordinate must remain strictly within `(-half, half)`.
pub open spec fn axis_move_allowed(half: int, coord: int, delta: int) -> bool {
    -half < coord + delta < half
}

/// The result of attempting a single-axis move: the move is applied only when
/// allowed, and silently dropped otherwise.
pub open spec fn axis_move(half: int, coord: int, delta: int) -> int {
    if axis_move_allowed(half, coord, delta) {
        coord + delta
    } else {
        coord
    }
}

/// The head position after one tick's intents, applied in the fixed order
/// left, right, down, up, each clamped independently on its axis.
pub open spec fn spec_new_head(cfg: Config, head: Position, it: Intents) -> Position {
    let s = cfg.speed as int;
    let x1 = if it.left { axis_move(cfg.half_width(), head.x as int, -s) } else { head.x as int };
    let x2 = if it.right { axis_move(cfg.half_width(), x1, s) } else { x1 };
    let y1 = if it.down { axis_move(cfg.half_height(), head.y as int, -s) } else { head.y as int };
    let y2 = if it.up { axis_move(cfg.half_height(), y1, s) } else { y1 };
    Position { x: x2 as i64, y: y2 as i64 }
}

/// Whether any single-axis move was applied this tick, in the same order.
/// Note that two opposite intents may both apply and leave the coordinate
/// unchanged while still counting as movement.
pub open spec fn spec_moved(cfg: Config, head: Position, it: Intents) -> bool {
    let s = cfg.speed as int;
    let x1 = if it.left { axis_move(cfg.half_width(), head.x as int, -s) } else { head.x as int };
    let y1 = if it.down { axis_move(cfg.half_height(), head.y as int, -s) } else { head.y as int };
    ||| it.left && axis_move_allowed(cfg.half_width(), head.x as int, -s)
    ||| it.right && axis_move_allowed(cfg.half_width(), x1, s)
    ||| it.down && axis_move_allowed(cfg.half_height(), head.y as int, -s)
    ||| it.up && axis_move_allowed(cfg.half_height(), y1, s)
}

/// One single-axis move attempt, executable form.
fn axis_step(half: i64, coord: i64, delta: i64) -> (r: (i64, bool))
    requires
        0 <= half <= u32::MAX as int / 2,
        -half <= coord <= half,
        -(u32::MAX as int) <= delta <= u32::MAX as int,
    ensures
        r.0 as int == axis_move(half as int, coord as int, delta as int),
        r.1 == axis_move_allowed(half as int, coord as int, delta as int),
{
    let target = coord + delta;
    if -half < target && target < half {
        (target, true)
    } else {
        (coord, false)
    }
}

/// Produces the head position after this tick's intents, and whether any
/// axis move was applied. Each active intent adds `speed` along its axis; a
/// move whose result would leave the arena is dropped without blocking the
/// other moves. The new head never leaves the arena.
pub fn advance_head(cfg: &Config, head: Position, it: Intents) -> (r: (Position, bool))
    requires
        cfg.wf(),
        cfg.in_arena(head),
    ensures
        r.0 == spec_new_head(*cfg, head, it),
        r.1 == spec_moved(*cfg, head, it),
        cfg.in_arena(r.0),
{
    let half_w: i64 = (cfg.arena_width / 2) as i64;
    let half_h: i64 = (cfg.arena_height / 2) as i64;
    let s: i64 = cfg.speed as i64;
    let mut x: i64 = head.x;
    let mut y: i64 = head.y;
    let mut moved = false;
    if it.left {
        let (nx, applied) = axis_step(half_w, x, -s);
        x = nx;
        moved = moved || applied;
    }
    if it.right {
        let (nx, applied) = axis_step(half_w, x, s);
        x = nx;
        moved = moved || applied;
    }
    if it.down {
        let (ny, applied) = axis_step(half_h, y, -s);
        y = ny;
        moved = moved || applied;
    }
    if it.up {
        let (ny, applied) = axis_step(half_h, y, s);
        y = ny;
        moved = moved || applied;
    }
    (Position { x, y }, moved)
}

} // verus!
