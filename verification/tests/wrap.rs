use duel_core::player::{wrap_coord, wrap_player_position};
use duel_core::Vec2;

#[test]
fn position_exactly_at_the_boundary_is_not_wrapped() {
    assert_eq!(wrap_coord(400, 400), 400);
    assert_eq!(wrap_coord(-400, 400), -400);
}

#[test]
fn position_just_beyond_the_boundary_wraps_to_the_opposite_side() {
    assert_eq!(wrap_coord(401, 400), -400);
    assert_eq!(wrap_coord(-401, 400), 400);
}

#[test]
fn interior_positions_are_untouched() {
    assert_eq!(wrap_coord(0, 400), 0);
    assert_eq!(wrap_coord(399, 400), 399);
    assert_eq!(wrap_coord(-123, 400), -123);
}

#[test]
fn wrap_is_independent_per_axis() {
    let mut positions = vec![Vec2 { x: 500, y: -100 }, Vec2 { x: 100, y: -301 }];
    wrap_player_position(&mut positions, 800, 600);
    assert_eq!(positions[0], Vec2 { x: -400, y: -100 });
    assert_eq!(positions[1], Vec2 { x: 100, y: 300 });
}

#[test]
fn odd_window_size_uses_truncated_half_extent() {
    let mut positions = vec![Vec2 { x: 401, y: 0 }];
    wrap_player_position(&mut positions, 801, 600);
    // half extent of an 801-wide window is 400
    assert_eq!(positions[0], Vec2 { x: -400, y: 0 });
}

#[test]
fn zero_size_window_pins_everything_to_the_origin() {
    let mut positions = vec![Vec2 { x: 5, y: -5 }, Vec2 { x: 0, y: 0 }];
    wrap_player_position(&mut positions, 0, 0);
    assert_eq!(positions[0], Vec2 { x: 0, y: 0 });
    assert_eq!(positions[1], Vec2 { x: 0, y: 0 });
}
