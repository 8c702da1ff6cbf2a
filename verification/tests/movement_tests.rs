use snake_core::config::Config;
use snake_core::geometry::Position;
use snake_core::movement::advance_head;
use snake_core::movement::Intents;

fn arena_cfg() -> Config {
    Config {
        head_width: 10,
        head_height: 10,
        speed: 10,
        arena_width: 100,
        arena_height: 100,
        food_width: 10,
        food_height: 10,
        food_spawn_interval_ms: 1000,
        tail_shrink_enabled: false,
    }
}

fn pos(x: i64, y: i64) -> Position {
    Position { x, y }
}

#[test]
fn move_right_from_center() {
    let cfg = arena_cfg();
    let it = Intents { left: false, right: true, up: false, down: false };
    let (p, moved) = advance_head(&cfg, pos(0, 0), it);
    assert_eq!(p, pos(10, 0));
    assert!(moved);
}

#[test]
fn move_left_and_down() {
    let cfg = arena_cfg();
    let it = Intents { left: true, right: false, up: false, down: true };
    let (p, moved) = advance_head(&cfg, pos(0, 0), it);
    assert_eq!(p, pos(-10, -10));
    assert!(moved);
}

#[test]
fn diagonal_movement_applies_both_axes() {
    let cfg = arena_cfg();
    let it = Intents { left: false, right: true, up: true, down: false };
    let (p, moved) = advance_head(&cfg, pos(5, -5), it);
    assert_eq!(p, pos(15, 5));
    assert!(moved);
}

#[test]
fn no_intents_no_movement() {
    let cfg = arena_cfg();
    let (p, moved) = advance_head(&cfg, pos(7, -3), Intents::none());
    assert_eq!(p, pos(7, -3));
    assert!(!moved);
}

#[test]
fn out_of_bound_move_is_dropped() {
    let cfg = arena_cfg();
    let it = Intents { left: false, right: true, up: false, down: false };
    let (p, moved) = advance_head(&cfg, pos(45, 0), it);
    assert_eq!(p, pos(45, 0));
    assert!(!moved);
}

#[test]
fn move_landing_on_border_is_dropped() {
    // The result must stay strictly inside the arena: landing exactly on the
    // half-extent is refused.
    let cfg = arena_cfg();
    let it = Intents { left: false, right: true, up: false, down: false };
    let (p, moved) = advance_head(&cfg, pos(40, 0), it);
    assert_eq!(p, pos(40, 0));
    assert!(!moved);
}

#[test]
fn clamp_on_one_axis_does_not_block_the_other() {
    let cfg = arena_cfg();
    let it = Intents { left: false, right: true, up: true, down: false };
    let (p, moved) = advance_head(&cfg, pos(45, 0), it);
    assert_eq!(p, pos(45, 10));
    assert!(moved);
}

#[test]
fn opposite_intents_cancel_but_count_as_movement() {
    let cfg = arena_cfg();
    let it = Intents { left: true, right: true, up: false, down: false };
    let (p, moved) = advance_head(&cfg, pos(0, 0), it);
    assert_eq!(p, pos(0, 0));
    assert!(moved);
}

#[test]
fn head_stays_in_bounds_over_many_moves() {
    // Boundary clamp invariant: whatever the intent sequence, the head's
    // coordinates stay within half the arena extents.
    let cfg = arena_cfg();
    let mut p = pos(0, 0);
    for i in 0..500u32 {
        let it = Intents {
            left: i % 3 == 0,
            right: i % 7 < 3,
            up: i % 2 == 0,
            down: i % 11 == 5,
        };
        let (np, _) = advance_head(&cfg, p, it);
        p = np;
        assert!(-50 <= p.x && p.x <= 50);
        assert!(-50 <= p.y && p.y <= 50);
    }
}
