use snake_core::body::SnakeBody;
use snake_core::geometry::Position;

fn bpos(x: i64, y: i64) -> Position {
    Position { x, y }
}

#[test]
fn new_body_is_two_segments_at_origin() {
    let b = SnakeBody::new();
    assert_eq!(b.len(), 2);
    assert_eq!(b.positions(), vec![bpos(0, 0), bpos(0, 0)]);
    assert_eq!(b.head(), bpos(0, 0));
    assert_eq!(b.last_tail(), bpos(0, 0));
}

#[test]
fn advance_shifts_chain_to_predecessor_positions() {
    // Chain-follow: after an advance with movement, segment i holds the
    // pre-tick position of segment i - 1.
    let mut b = SnakeBody::new();
    b.grow(bpos(1, 1));
    b.grow(bpos(2, 2));
    b.advance(true, false, bpos(9, 9));
    // Before: [(0,0), (0,0), (1,1), (2,2)]
    assert_eq!(b.positions(), vec![bpos(9, 9), bpos(0, 0), bpos(0, 0), bpos(1, 1)]);
    assert_eq!(b.last_tail(), bpos(2, 2));
}

#[test]
fn advance_without_movement_or_shrink_keeps_tail_segments() {
    let mut b = SnakeBody::new();
    b.grow(bpos(1, 1));
    b.advance(false, false, bpos(5, 5));
    assert_eq!(b.positions(), vec![bpos(5, 5), bpos(0, 0), bpos(1, 1)]);
    assert_eq!(b.last_tail(), bpos(1, 1));
}

#[test]
fn advance_with_shrink_flag_shifts_even_when_still() {
    let mut b = SnakeBody::new();
    b.grow(bpos(1, 1));
    b.advance(false, true, bpos(0, 0));
    assert_eq!(b.positions(), vec![bpos(0, 0), bpos(0, 0), bpos(0, 0)]);
    assert_eq!(b.last_tail(), bpos(1, 1));
}

#[test]
fn grow_appends_exactly_one_segment() {
    let mut b = SnakeBody::new();
    let before = b.len();
    b.grow(bpos(4, -4));
    assert_eq!(b.len(), before + 1);
    assert_eq!(b.positions(), vec![bpos(0, 0), bpos(0, 0), bpos(4, -4)]);
}

#[test]
fn length_never_decreases_without_reset() {
    let mut b = SnakeBody::new();
    let mut last_len = b.len();
    for i in 0..50i64 {
        b.advance(i % 2 == 0, i % 3 == 0, bpos(i, -i));
        assert!(b.len() >= last_len);
        if i % 4 == 0 {
            b.grow(b.last_tail());
            assert_eq!(b.len(), last_len + 1);
        }
        last_len = b.len();
    }
}

#[test]
fn reset_returns_to_initial_chain() {
    let mut b = SnakeBody::new();
    b.grow(bpos(1, 0));
    b.grow(bpos(2, 0));
    b.advance(true, false, bpos(3, 3));
    b.reset();
    assert_eq!(b.len(), 2);
    assert_eq!(b.positions(), vec![bpos(0, 0), bpos(0, 0)]);
    assert_eq!(b.last_tail(), bpos(0, 0));
}
