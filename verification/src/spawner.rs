//! Time-driven random food placement.

use vstd::prelude::*;
use crate::config::Config;
use crate::food::FoodItem;
use crate::geometry::Position;
use crate::rng::rand_below;
use crate::rng::rng_from_seed;

verus! {

/// Whether the repeating spawn timer elapses on a tick: the time accumulated
/// so far plus the elapsed time reaches the spawn interval.
pub open spec fn timer_fires(acc_ms: u64, elapsed_ms: u64, interval_ms: u64) -> bool {
    acc_ms + elapsed_ms >= interval_ms
}

/// The food position built from two uniform draws, `rx` from
/// `[0, arena_width)` and `ry` from `[0, arena_height)`, re-centered by
/// subtracting half the arena extents.
pub open spec fn spec_spawn_pos(cfg: Config, rx: u32, ry: u32) -> Position {
    Position {
        x: (rx as int - cfg.half_width()) as i64,
        y: (ry as int - cfg.half_height()) as i64,
    }
}

/// Re-centers two uniform draws into an arena position. Every result lies in
/// the arena, so spawned food is always reachable.
pub fn spawn_position(cfg: &Config, rx: u32, ry: u32) -> (p: Position)
    requires
        rx < cfg.arena_width,
        ry < cfg.arena_height,
    ensures
        p == spec_spawn_pos(*cfg, rx, ry),
        cfg.in_arena(p),
{
    let x: i64 = rx as i64 - (cfg.arena_width / 2) as i64;
    let y: i64 = ry as i64 - (cfg.arena_height / 2) as i64;
    Position { x, y }
}

/// The food spawner: a repeating countdown timer and the generator that
/// places each new item.
pub struct FoodSpawner {
    acc_ms: u64,
    rng: rand::rngs::StdRng,
}

impl FoodSpawner {
    /// Milliseconds accumulated toward the next spawn.
    pub closed spec fn acc_spec(self) -> u64 {
        self.acc_ms
    }

    /// A fresh spawner whose timer starts at zero and whose draws replay the
    /// given seed.
    pub fn new(seed: u64) -> (s: FoodSpawner)
        ensures
            s.acc_spec() == 0,
    {
        FoodSpawner { acc_ms: 0, rng: rng_from_seed(seed) }
    }

    /// Advances the timer by the elapsed time. When the timer elapses, it
    /// restarts and exactly one food item is created, carrying the given
    /// identity and a re-centered uniform position inside the arena;
    /// otherwise no item is created and the time accumulates.
    pub fn tick(&mut self, cfg: &Config, elapsed_ms: u64, id: u64) -> (r: Option<FoodItem>)
        requires
            cfg.wf(),
        ensures
            r is Some <==> timer_fires(old(self).acc_spec(), elapsed_ms, cfg.food_spawn_interval_ms),
            match r {
                Some(item) => {
                    &&& item.id == id
                    &&& cfg.in_arena(item.pos)
                    &&& final(self).acc_spec() == 0
                },
                None => final(self).acc_spec() == old(self).acc_spec() + elapsed_ms,
            },
    {
        let acc = self.acc_ms;
        let sum: u64 = if elapsed_ms <= u64::MAX - acc {
            acc + elapsed_ms
        } else {
            u64::MAX
        };
        if sum >= cfg.food_spawn_interval_ms {
            let rx = rand_below(&mut self.rng, cfg.arena_width);
            let ry = rand_below(&mut self.rng, cfg.arena_height);
            let pos = spawn_position(cfg, rx, ry);
            self.acc_ms = 0;
            Some(FoodItem { id, pos })
        } else {
            self.acc_ms = sum;
            None
        }
    }
}

} // verus!
