use snake_core::config::Config;
use snake_core::geometry::Position;
use snake_core::movement::Intents;
use snake_core::round::Game;

fn gpos(x: i64, y: i64) -> Position {
    Position { x, y }
}

fn idle() -> Intents {
    Intents::none()
}

/// Sizes so large relative to the arena that the head reaches every food
/// item: each spawned item is consumed on the following tick.
fn always_eat_cfg() -> Config {
    Config {
        head_width: 3,
        head_height: 3,
        speed: 1,
        arena_width: 3,
        arena_height: 3,
        food_width: 1,
        food_height: 1,
        food_spawn_interval_ms: 10,
        tail_shrink_enabled: false,
    }
}

fn steering_cfg() -> Config {
    Config {
        head_width: 1,
        head_height: 1,
        speed: 1,
        arena_width: 101,
        arena_height: 101,
        food_width: 1,
        food_height: 1,
        food_spawn_interval_ms: 1_000_000,
        tail_shrink_enabled: false,
    }
}

#[test]
fn new_game_starts_at_origin_with_no_food() {
    let mut g = Game::new(always_eat_cfg(), 0);
    let out = g.tick(0, idle(), false);
    assert_eq!(out.segments, vec![gpos(0, 0), gpos(0, 0)]);
    assert!(out.food.is_empty());
    assert_eq!(out.score.eaten, 0);
    assert_eq!(out.score.spawned, 0);
}

#[test]
fn timer_accumulates_and_restarts() {
    let mut cfg = always_eat_cfg();
    cfg.food_spawn_interval_ms = 100;
    let mut g = Game::new(cfg, 1);
    assert_eq!(g.tick(30, idle(), false).score.spawned, 0);
    assert_eq!(g.tick(30, idle(), false).score.spawned, 0);
    assert_eq!(g.tick(40, idle(), false).score.spawned, 1);
    assert_eq!(g.tick(99, idle(), false).score.spawned, 1);
    assert_eq!(g.tick(1, idle(), false).score.spawned, 2);
}

#[test]
fn zero_interval_spawns_every_tick() {
    let mut cfg = always_eat_cfg();
    cfg.food_spawn_interval_ms = 0;
    let mut g = Game::new(cfg, 2);
    for i in 1..=5u64 {
        assert_eq!(g.tick(0, idle(), false).score.spawned, i);
    }
}

#[test]
fn each_consumed_item_grows_the_body_by_one() {
    let mut g = Game::new(always_eat_cfg(), 7);
    for n in 1..=10u64 {
        let out = g.tick(10, idle(), false);
        // Tick n: the item spawned on tick n-1 is consumed, then one new
        // item appears.
        assert_eq!(out.score.spawned, n);
        assert_eq!(out.score.eaten, n - 1);
        assert_eq!(out.food.len(), 1);
        assert_eq!(out.segments.len(), 2 + (n as usize - 1));
    }
}

#[test]
fn eaten_never_exceeds_spawned() {
    let mut g = Game::new(always_eat_cfg(), 11);
    for i in 0..200u32 {
        let it = Intents { left: i % 4 == 0, right: i % 3 == 0, up: i % 5 == 0, down: i % 2 == 0 };
        let out = g.tick(10, it, i % 60 == 59);
        assert!(out.score.eaten <= out.score.spawned);
    }
}

#[test]
fn body_length_is_monotone_between_resets() {
    let mut g = Game::new(always_eat_cfg(), 13);
    let mut last = 2usize;
    for _ in 0..50 {
        let out = g.tick(10, idle(), false);
        assert!(out.segments.len() >= last);
        last = out.segments.len();
    }
}

#[test]
fn reset_restores_the_snake_and_clears_food_but_keeps_score() {
    // Build up a body of length 5 and 3 live food items, then reset.
    let mut g = Game::new(steering_cfg(), 42);
    let mut out = g.tick(0, idle(), false);

    // Park the head away from the center.
    let right = Intents { left: false, right: true, up: false, down: false };
    for _ in 0..30 {
        out = g.tick(0, right, false);
    }
    assert_eq!(out.segments[0], gpos(30, 0));

    // Three spawns, far from the head with this seed.
    for _ in 0..3 {
        out = g.tick(1_000_000, idle(), false);
    }
    assert_eq!(out.score.spawned, 3);
    assert_eq!(out.score.eaten, 0);
    assert_eq!(out.food.len(), 3);

    // Steer onto the food until all three are consumed.
    let mut guard = 0;
    while out.score.eaten < 3 {
        guard += 1;
        assert!(guard < 5000, "steering did not reach the food");
        let head = out.segments[0];
        let target = out.food[0];
        let it = Intents {
            left: head.x > target.x,
            right: head.x < target.x,
            up: head.y < target.y,
            down: head.y > target.y,
        };
        out = g.tick(0, it, false);
    }
    assert_eq!(out.segments.len(), 5);
    assert_eq!(out.food.len(), 0);

    // Three more spawns stay uneaten.
    for _ in 0..3 {
        out = g.tick(1_000_000, idle(), false);
    }
    assert_eq!(out.score.spawned, 6);
    assert_eq!(out.score.eaten, 3);
    assert_eq!(out.food.len(), 3);
    assert_eq!(out.segments.len(), 5);

    // The reset-bearing tick: the body returns to two segments at the
    // origin, the food set empties, and the score persists.
    out = g.tick(0, idle(), true);
    assert_eq!(out.segments, vec![gpos(0, 0), gpos(0, 0)]);
    assert!(out.food.is_empty());
    assert_eq!(out.score.eaten, 3);
    assert_eq!(out.score.spawned, 6);
    assert_eq!(g.score().eaten, 3);
    assert_eq!(g.score().spawned, 6);
}

#[test]
fn accessors_match_the_last_outcome() {
    let cfg = always_eat_cfg();
    let mut g = Game::new(cfg, 3);
    let out = g.tick(10, idle(), false);
    assert_eq!(g.score(), out.score);
    assert_eq!(g.config(), cfg);
}
