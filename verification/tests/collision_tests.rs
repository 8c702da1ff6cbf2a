use snake_core::collision::collides;
use snake_core::config::Config;
use snake_core::food::eat_colliding;
use snake_core::food::FoodItem;
use snake_core::geometry::Position;

fn box_cfg(head_w: u32, head_h: u32, food_w: u32, food_h: u32) -> Config {
    Config {
        head_width: head_w,
        head_height: head_h,
        speed: 1,
        arena_width: 1000,
        arena_height: 1000,
        food_width: food_w,
        food_height: food_h,
        food_spawn_interval_ms: 1000,
        tail_shrink_enabled: false,
    }
}

fn cpos(x: i64, y: i64) -> Position {
    Position { x, y }
}

#[test]
fn edge_touching_counts_as_collision() {
    // Head at (0,0) of size (10,10) and food at (10,0) of size (10,10):
    // the horizontal half-extent is (10+10)/2 = 10 and |10-0| <= 10.
    let cfg = box_cfg(10, 10, 10, 10);
    assert!(collides(&cfg, cpos(0, 0), cpos(10, 0)));
}

#[test]
fn just_past_the_edge_is_no_collision() {
    let cfg = box_cfg(10, 10, 10, 10);
    assert!(!collides(&cfg, cpos(0, 0), cpos(11, 0)));
}

#[test]
fn collision_is_symmetric_in_the_two_positions() {
    let cfg = box_cfg(10, 10, 10, 10);
    for &(hx, hy, fx, fy) in
        &[(0i64, 0i64, 10i64, 0i64), (3, 4, -5, 9), (0, 0, 11, 0), (-7, 2, 3, 2)]
    {
        assert_eq!(
            collides(&cfg, cpos(hx, hy), cpos(fx, fy)),
            collides(&cfg, cpos(fx, fy), cpos(hx, hy)),
        );
    }
}

#[test]
fn both_axes_must_be_within_range() {
    // Head 10x10, food 4x2: half-extents are (10+4)/2 = 7 and (10+2)/2 = 6.
    let cfg = box_cfg(10, 10, 4, 2);
    assert!(collides(&cfg, cpos(0, 0), cpos(7, 6)));
    assert!(!collides(&cfg, cpos(0, 0), cpos(8, 6)));
    assert!(!collides(&cfg, cpos(0, 0), cpos(7, 7)));
}

#[test]
fn odd_size_sum_rounds_the_half_extent_down() {
    // Head 3x3, food 2x2: (3+2)/2 = 2 in integer arithmetic.
    let cfg = box_cfg(3, 3, 2, 2);
    assert!(collides(&cfg, cpos(0, 0), cpos(2, 0)));
    assert!(!collides(&cfg, cpos(0, 0), cpos(3, 0)));
}

#[test]
fn eating_removes_each_colliding_item_and_keeps_order() {
    let cfg = box_cfg(10, 10, 10, 10);
    let mut food = vec![
        FoodItem { id: 0, pos: cpos(10, 0) },
        FoodItem { id: 1, pos: cpos(200, 200) },
        FoodItem { id: 2, pos: cpos(-10, 0) },
        FoodItem { id: 3, pos: cpos(50, 50) },
    ];
    let eaten = eat_colliding(&cfg, cpos(0, 0), &mut food);
    assert_eq!(eaten, 2);
    assert_eq!(food.len(), 2);
    assert_eq!(food[0].id, 1);
    assert_eq!(food[1].id, 3);
}

#[test]
fn eating_with_no_collisions_removes_nothing() {
    let cfg = box_cfg(10, 10, 10, 10);
    let mut food = vec![FoodItem { id: 7, pos: cpos(100, 100) }];
    let eaten = eat_colliding(&cfg, cpos(0, 0), &mut food);
    assert_eq!(eaten, 0);
    assert_eq!(food.len(), 1);
    assert_eq!(food[0].id, 7);
}

#[test]
fn overlapping_items_are_each_consumed() {
    let cfg = box_cfg(10, 10, 10, 10);
    let mut food = vec![
        FoodItem { id: 0, pos: cpos(5, 0) },
        FoodItem { id: 1, pos: cpos(5, 0) },
        FoodItem { id: 2, pos: cpos(5, 5) },
    ];
    let eaten = eat_colliding(&cfg, cpos(0, 0), &mut food);
    assert_eq!(eaten, 3);
    assert!(food.is_empty());
}
