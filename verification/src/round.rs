//! Per-tick orchestration and full-state reset.

use vstd::prelude::*;
use crate::body::SnakeBody;
use crate::body::advanced_chain;
use crate::body::initial_chain;
use crate::config::Config;
use crate::food::FoodItem;
use crate::food::distinct_ids;
use crate::food::eat_colliding;
use crate::food::lemma_survivors_within;
use crate::food::positions_of;
use crate::food::survivors;
use crate::geometry::Position;
use crate::movement::Intents;
use crate::movement::advance_head;
use crate::movement::spec_moved;
use crate::movement::spec_new_head;
use crate::score::Score;
use crate::spawner::FoodSpawner;
use crate::spawner::timer_fires;

verus! {

/// A frozen snapshot handed to the host after a tick: the segment positions
/// head first, the live food positions, and the score.
pub struct TickOutcome {
    pub segments: Vec<Position>,
    pub food: Vec<Position>,
    pub score: Score,
}

/// A sequence of `n` copies of one position.
pub open spec fn repeat_pos(p: Position, n: nat) -> Seq<Position> {
    Seq::new(n, |i: int| p)
}

/// The whole simulation state, advanced one tick at a time by
/// [`Game::tick`].
pub struct Game {
    cfg: Config,
    body: SnakeBody,
    food: Vec<FoodItem>,
    score: Score,
    spawner: FoodSpawner,
}

impl Game {
    /// The configuration the game was created with.
    pub closed spec fn cfg_spec(self) -> Config {
        self.cfg
    }

    /// The body chain's segment positions, head first.
    pub closed spec fn body_spec(self) -> Seq<Position> {
        self.body@
    }

    /// The recorded pre-update position of the final segment.
    pub closed spec fn last_tail_spec(self) -> Position {
        self.body.last_tail_spec()
    }

    /// The live food items, in spawn order.
    pub closed spec fn food_spec(self) -> Seq<FoodItem> {
        self.food@
    }

    /// The running score counters.
    pub closed spec fn score_spec(self) -> Score {
        self.score
    }

    /// Milliseconds accumulated toward the next food spawn.
    pub closed spec fn timer_spec(self) -> u64 {
        self.spawner.acc_spec()
    }

    /// The whole spawner state, timer and generator together.
    pub closed spec fn spawner_spec(self) -> FoodSpawner {
        self.spawner
    }

    /// The state invariant: the configuration is well-formed, the chain holds
    /// at least two segments and stays inside the arena, the recorded tail
    /// snapshot is inside the arena, live food identities are distinct and
    /// below the spawn counter, food positions are inside the arena, and the
    /// consumed count plus the live count never exceeds the spawn count.
    pub open spec fn wf(self) -> bool {
        &&& self.cfg_spec().wf()
        &&& self.body_spec().len() >= 2
        &&& forall|i: int| 0 <= i < self.body_spec().len()
            ==> self.cfg_spec().in_arena(#[trigger] self.body_spec()[i])
        &&& self.cfg_spec().in_arena(self.last_tail_spec())
        &&& distinct_ids(self.food_spec())
        &&& forall|i: int| 0 <= i < self.food_spec().len()
            ==> (#[trigger] self.food_spec()[i]).id < self.score_spec().spawned
        &&& forall|i: int| 0 <= i < self.food_spec().len()
            ==> self.cfg_spec().in_arena((#[trigger] self.food_spec()[i]).pos)
        &&& self.score_spec().eaten + self.food_spec().len() <= self.score_spec().spawned
    }

    /// The head position this tick's intents produce.
    pub open spec fn new_head_of(self, it: Intents) -> Position {
        spec_new_head(self.cfg_spec(), self.body_spec()[0], it)
    }

    /// Whether the chain shifts this tick: the head moved, or tail shrinking
    /// is enabled.
    pub open spec fn shift_of(self, it: Intents) -> bool {
        spec_moved(self.cfg_spec(), self.body_spec()[0], it) || self.cfg_spec().tail_shrink_enabled
    }

    /// The pre-shift position of the final segment, where growth appends.
    pub open spec fn tail_snapshot_of(self) -> Position {
        self.body_spec().last()
    }

    /// The live food items that survive this tick's eating pass.
    pub open spec fn survivors_of(self, it: Intents) -> Seq<FoodItem> {
        survivors(self.cfg_spec(), self.new_head_of(it), self.food_spec())
    }

    /// How many food items the head consumes this tick; each one stands for
    /// one growth request.
    pub open spec fn eaten_now(self, it: Intents) -> int {
        self.food_spec().len() - self.survivors_of(it).len()
    }

    /// The body chain after movement, chain shift and growth: the advanced
    /// chain plus one appended tail segment per consumed food item.
    pub open spec fn body_after(self, it: Intents) -> Seq<Position> {
        advanced_chain(self.body_spec(), self.shift_of(it), self.new_head_of(it))
            + repeat_pos(self.tail_snapshot_of(), self.eaten_now(it) as nat)
    }

    /// Whether the spawn timer elapses this tick.
    pub open spec fn fires_now(self, elapsed_ms: u64) -> bool {
        timer_fires(self.timer_spec(), elapsed_ms, self.cfg_spec().food_spawn_interval_ms)
    }

    /// The score after this tick: one point per consumed item, one spawn
    /// count when the timer elapses. The score survives a reset.
    pub open spec fn score_after(self, it: Intents, elapsed_ms: u64) -> Score {
        Score {
            eaten: (self.score_spec().eaten + self.eaten_now(it)) as u64,
            spawned: (self.score_spec().spawned + if self.fires_now(elapsed_ms) { 1int } else { 0int }) as u64,
        }
    }

    /// A fresh game: a two-segment snake at the origin, no food, zero score,
    /// a spawn timer at zero, and draws that replay the given seed.
    pub fn new(cfg: Config, seed: u64) -> (g: Game)
        requires
            cfg.wf(),
        ensures
            g.wf(),
            g.cfg_spec() == cfg,
            g.body_spec() == initial_chain(),
            g.last_tail_spec() == Position::spec_origin(),
            g.food_spec() == Seq::<FoodItem>::empty(),
            g.score_spec() == (Score { eaten: 0, spawned: 0 }),
            g.timer_spec() == 0,
    {
        let g = Game {
            cfg,
            body: SnakeBody::new(),
            food: Vec::new(),
            score: Score::zero(),
            spawner: FoodSpawner::new(seed),
        };
        proof {
            assert(g.food_spec() =~= Seq::<FoodItem>::empty());
        }
        g
    }

    /// The configuration the game runs under.
    pub fn config(&self) -> (c: Config)
        ensures
            c == self.cfg_spec(),
    {
        self.cfg
    }

    /// The current score counters.
    pub fn score(&self) -> (s: Score)
        ensures
            s == self.score_spec(),
    {
        self.score
    }

    /// One simulation tick, in fixed order: movement, chain advance, eating,
    /// growth, timed spawning, then an optional full reset. Returns a frozen
    /// snapshot of the new state.
    ///
    /// The ensures pin every part of the new state except the position drawn
    /// for a newly spawned food item, which is only known to lie inside the
    /// arena. The spawn counter must have headroom, since a tick may create
    /// one food item.
    pub fn tick(&mut self, elapsed_ms: u64, intents: Intents, reset: bool) -> (out: TickOutcome)
        requires
            old(self).wf(),
            old(self).score_spec().spawned < u64::MAX,
        ensures
            final(self).wf(),
            final(self).cfg_spec() == old(self).cfg_spec(),
            final(self).score_spec() == old(self).score_after(intents, elapsed_ms),
            final(self).score_spec().eaten <= final(self).score_spec().spawned,
            !reset ==> final(self).body_spec() == old(self).body_after(intents),
            !reset ==> final(self).body_spec().len()
                == old(self).body_spec().len() + old(self).eaten_now(intents),
            !reset ==> final(self).body_spec().len() >= old(self).body_spec().len(),
            !reset ==> final(self).last_tail_spec() == old(self).tail_snapshot_of(),
            reset ==> final(self).body_spec() == initial_chain(),
            reset ==> final(self).last_tail_spec() == Position::spec_origin(),
            reset ==> final(self).food_spec() == Seq::<FoodItem>::empty(),
            (!reset && !old(self).fires_now(elapsed_ms))
                ==> final(self).food_spec() == old(self).survivors_of(intents),
            (!reset && old(self).fires_now(elapsed_ms)) ==> {
                &&& final(self).food_spec().len() == old(self).survivors_of(intents).len() + 1
                &&& final(self).food_spec().drop_last() == old(self).survivors_of(intents)
                &&& final(self).food_spec().last().id == old(self).score_spec().spawned
                &&& old(self).cfg_spec().in_arena(final(self).food_spec().last().pos)
            },
            old(self).fires_now(elapsed_ms) ==> final(self).timer_spec() == 0,
            !old(self).fires_now(elapsed_ms)
                ==> final(self).timer_spec() == old(self).timer_spec() + elapsed_ms,
            out.segments@ == final(self).body_spec(),
            out.food@ == final(self).food_spec().map_values(|f: FoodItem| f.pos),
            out.score == final(self).score_spec(),
    {
        let ghost g0 = *self;
        let cfg = self.cfg;

        // 1. Movement: intents become a clamped head displacement.
        let head = self.body.head();
        let (new_head, moved) = advance_head(&cfg, head, intents);

        // 2. Chain advance: follow-the-leader shift, tail snapshot recorded.
        self.body.advance(moved, cfg.tail_shrink_enabled, new_head);
        let tail_snap = self.body.last_tail();
        proof {
            assert(tail_snap == g0.body_spec().last());
            assert(self.body@ == advanced_chain(g0.body_spec(), g0.shift_of(intents), new_head));
            assert forall|i: int| 0 <= i < self.body@.len()
                implies cfg.in_arena(#[trigger] self.body@[i]) by {
                if i == 0 {
                } else if g0.shift_of(intents) {
                    assert(self.body@[i] == g0.body_spec()[i - 1]);
                } else {
                    assert(self.body@[i] == g0.body_spec()[i]);
                }
            }
        }

        // 3. Eating: every colliding food item is consumed; each consumption
        // scores a point and stands for one growth request.
        let k = eat_colliding(&cfg, new_head, &mut self.food);
        proof {
            lemma_survivors_within(cfg, g0.new_head_of(intents), g0.food_spec());
            assert forall|i: int| 0 <= i < self.food@.len()
                implies (#[trigger] self.food@[i]).id < g0.score_spec().spawned by {
                assert(g0.food_spec().contains(self.food@[i]));
                let j = choose|j: int|
                    0 <= j < g0.food_spec().len() && g0.food_spec()[j] == self.food@[i];
            }
            assert forall|i: int| 0 <= i < self.food@.len()
                implies cfg.in_arena((#[trigger] self.food@[i]).pos) by {
                assert(g0.food_spec().contains(self.food@[i]));
                let j = choose|j: int|
                    0 <= j < g0.food_spec().len() && g0.food_spec()[j] == self.food@[i];
            }
        }
        self.score.eaten = self.score.eaten + k as u64;

        // 4. Growth: one appended tail segment per consumed item, at the
        // pre-shift position of the final segment.
        let mut j: usize = 0;
        proof {
            assert(self.body@ =~= advanced_chain(g0.body_spec(), g0.shift_of(intents), new_head)
                + repeat_pos(tail_snap, 0));
        }
        while j < k
            invariant
                j <= k,
                self.body@ == advanced_chain(g0.body_spec(), g0.shift_of(intents), new_head)
                    + repeat_pos(tail_snap, j as nat),
                self.body.last_tail_spec() == g0.body_spec().last(),
                self.cfg == g0.cfg_spec(),
                self.food@ == g0.survivors_of(intents),
                k as int == g0.eaten_now(intents),
                self.score.spawned == g0.score_spec().spawned,
                self.score.eaten == g0.score_spec().eaten + k,
                self.spawner == g0.spawner_spec(),
            decreases k - j,
        {
            self.body.grow(tail_snap);
            proof {
                assert(self.body@ =~= advanced_chain(g0.body_spec(), g0.shift_of(intents), new_head)
                    + repeat_pos(tail_snap, (j + 1) as nat));
            }
            j = j + 1;
        }

        // 5. Spawning: the timer advances by the elapsed time and may emit
        // one new food item with a fresh identity.
        let id = self.score.spawned;
        let spawned_item = self.spawner.tick(&cfg, elapsed_ms, id);
        match spawned_item {
            Some(item) => {
                proof {
                    let f = self.food@;
                    assert(distinct_ids(f));
                    assert forall|a: int, b: int|
                        0 <= a < b < f.push(item).len()
                        implies f.push(item)[a].id != f.push(item)[b].id by {
                        assert(f.push(item)[a] == f[a]);
                        if b == f.len() as int {
                            assert(f[a].id < g0.score_spec().spawned);
                            assert(f.push(item)[b] == item);
                        } else {
                            assert(f.push(item)[b] == f[b]);
                        }
                    }
                }
                self.food.push(item);
                self.score.spawned = self.score.spawned + 1;
            },
            None => {},
        }

        // 6. Reset: discard all food and body state; the score persists.
        if reset {
            self.body.reset();
            self.food.clear();
        }

        let segments = self.body.positions();
        let food_positions = positions_of(&self.food);
        proof {
            if reset {
                assert(self.food_spec() =~= Seq::<FoodItem>::empty());
            } else {
                assert(self.body_spec() =~= g0.body_after(intents));
                if g0.fires_now(elapsed_ms) {
                    assert(self.food_spec().drop_last() =~= g0.survivors_of(intents));
                }
            }
        }
        TickOutcome { segments, food: food_positions, score: self.score }
    }
}

} // verus!
