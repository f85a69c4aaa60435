use pong::field::{
    EDGE_MARGIN, FIELD_HEIGHT, FIELD_WIDTH, PADDLE_SPEED, UNITS_PER_PIXEL, WINDOW_HEIGHT,
    WINDOW_WIDTH,
};
use pong::{Entity, Rect, Texture, Vec2};

/// A paddle of 26 by 100 pixels whose top is `y` pixels down.
fn paddle_at(y: i32) -> Entity {
    Entity::new(Texture::new(0, 26, 100), Vec2::pixels(16, y))
}

/// The same paddle with its top `y` half pixels down.
fn paddle_at_half(y: i64) -> Entity {
    Entity::new(Texture::new(0, 26, 100), Vec2::new(32, y))
}

#[test]
fn texture_reports_its_size() {
    let t = Texture::new(7, 26, 100);
    assert_eq!(t.id, 7);
    assert_eq!(t.width(), 26);
    assert_eq!(t.height(), 100);
}

#[test]
fn new_entity_is_at_rest() {
    let t = Texture::new(1, 22, 22);
    let e = Entity::new(t, Vec2::new(3, 4));
    assert_eq!(e.texture, t);
    assert_eq!(e.position, Vec2::new(3, 4));
    assert_eq!(e.velocity, Vec2::new(0, 0));
}

#[test]
fn with_velocity_keeps_all_three() {
    let t = Texture::new(1, 22, 22);
    let e = Entity::with_velocity(t, Vec2::new(3, 4), Vec2::new(-10, 0));
    assert_eq!(e.texture, t);
    assert_eq!(e.position, Vec2::new(3, 4));
    assert_eq!(e.velocity, Vec2::new(-10, 0));
}

#[test]
fn entity_size_is_its_texture_size_in_half_pixels() {
    let e = Entity::new(Texture::new(1, 26, 100), Vec2::new(0, 0));
    assert_eq!(e.width(), 52);
    assert_eq!(e.height(), 200);
    let odd = Entity::new(Texture::new(1, 15, 95), Vec2::new(0, 0));
    assert_eq!(odd.width(), 30);
    assert_eq!(odd.height(), 190);
}

#[test]
fn bounds_is_position_and_size() {
    let e = Entity::new(Texture::new(1, 26, 100), Vec2::pixels(16, 190));
    assert_eq!(e.bounds(), Rect { x: 32, y: 380, width: 52, height: 200 });
    let e = Entity::new(Texture::new(1, 15, 95), Vec2::new(625, 385));
    assert_eq!(e.bounds(), Rect { x: 625, y: 385, width: 30, height: 190 });
}

#[test]
fn the_field_constants() {
    assert_eq!(WINDOW_WIDTH, 640);
    assert_eq!(WINDOW_HEIGHT, 480);
    assert_eq!(UNITS_PER_PIXEL, 2);
    assert_eq!(FIELD_WIDTH, 2 * 640);
    assert_eq!(FIELD_HEIGHT, 2 * 480);
    assert_eq!(EDGE_MARGIN, 2 * 4);
    assert_eq!(PADDLE_SPEED, 2 * 8);
}

#[test]
fn hits_top_at_or_above_the_margin() {
    assert!(paddle_at(4).hits_top());
    assert!(paddle_at(3).hits_top());
    assert!(paddle_at(0).hits_top());
    assert!(paddle_at(-50).hits_top());
    assert!(!paddle_at(5).hits_top());
    assert!(!paddle_at(238).hits_top());
}

#[test]
fn hits_top_tells_half_a_pixel() {
    // Four and a half pixels down is clear of the margin; four is not.
    assert!(!paddle_at_half(9).hits_top());
    assert!(paddle_at_half(8).hits_top());
    assert!(paddle_at_half(7).hits_top());
}

#[test]
fn hits_top_for_every_height_on_the_field() {
    for y in -40..1000 {
        assert_eq!(paddle_at_half(y).hits_top(), y <= 8);
    }
}

#[test]
fn hits_bottom_at_or_below_the_margin() {
    // The paddle is 100 high: its bottom is at y + 100, the margin at 476.
    assert!(paddle_at(376).hits_bottom());
    assert!(paddle_at(377).hits_bottom());
    assert!(paddle_at(480).hits_bottom());
    assert!(!paddle_at(375).hits_bottom());
    assert!(!paddle_at(0).hits_bottom());
}

#[test]
fn hits_bottom_tells_half_a_pixel() {
    // Bottom at 475.5 pixels is clear of the margin; at 476 it is not.
    assert!(!paddle_at_half(751).hits_bottom());
    assert!(paddle_at_half(752).hits_bottom());
}

#[test]
fn hits_bottom_for_every_height_on_the_field() {
    for y in -40..1000 {
        assert_eq!(paddle_at_half(y).hits_bottom(), y + 200 >= 952);
    }
}

#[test]
fn hits_bottom_counts_the_texture_height() {
    let tall = Entity::new(Texture::new(0, 10, 476), Vec2::pixels(0, 0));
    assert!(tall.hits_bottom());
    let short = Entity::new(Texture::new(0, 10, 1), Vec2::pixels(0, 474));
    assert!(!short.hits_bottom());
    let short = Entity::new(Texture::new(0, 10, 1), Vec2::pixels(0, 475));
    assert!(short.hits_bottom());
}

#[test]
fn edge_tests_at_the_ends_of_the_axis() {
    let low = Entity::new(Texture::new(0, i32::MAX, i32::MAX), Vec2::new(0, i64::MAX));
    assert!(low.hits_bottom());
    assert!(!low.hits_top());
    let high = Entity::new(Texture::new(0, i32::MIN, i32::MIN), Vec2::new(0, i64::MIN));
    assert!(high.hits_top());
    assert!(!high.hits_bottom());
}

#[test]
fn steer_up_moves_by_the_paddle_speed() {
    let mut p = paddle_at(238);
    p.steer(true, false);
    assert_eq!(p.position, Vec2::pixels(16, 230));
}

#[test]
fn steer_down_moves_by_the_paddle_speed() {
    let mut p = paddle_at(238);
    p.steer(false, true);
    assert_eq!(p.position, Vec2::pixels(16, 246));
}

#[test]
fn steer_without_keys_stays() {
    let mut p = paddle_at(238);
    p.steer(false, false);
    assert_eq!(p, paddle_at(238));
}

#[test]
fn steer_with_both_keys_in_mid_field_stays() {
    let mut p = paddle_at(238);
    p.steer(true, true);
    assert_eq!(p, paddle_at(238));
}

#[test]
fn steer_up_stops_at_the_top() {
    let mut p = paddle_at(4);
    p.steer(true, false);
    assert_eq!(p.position, Vec2::pixels(16, 4));
    let mut p = paddle_at(5);
    p.steer(true, false);
    assert_eq!(p.position, Vec2::pixels(16, -3));
    p.steer(true, false);
    assert_eq!(p.position, Vec2::pixels(16, -3));
}

#[test]
fn steer_up_from_half_a_pixel_clear_of_the_top() {
    // From 4.5 pixels down the paddle still moves, to 3.5 pixels above.
    let mut p = paddle_at_half(9);
    p.steer(true, false);
    assert_eq!(p.position.y, -7);
    p.steer(true, false);
    assert_eq!(p.position.y, -7);
}

#[test]
fn steer_down_stops_at_the_bottom() {
    let mut p = paddle_at(376);
    p.steer(false, true);
    assert_eq!(p.position, Vec2::pixels(16, 376));
    let mut p = paddle_at(375);
    p.steer(false, true);
    assert_eq!(p.position, Vec2::pixels(16, 383));
    p.steer(false, true);
    assert_eq!(p.position, Vec2::pixels(16, 383));
}

#[test]
fn steer_down_from_half_a_pixel_clear_of_the_bottom() {
    let mut p = paddle_at_half(751);
    p.steer(false, true);
    assert_eq!(p.position.y, 767);
    p.steer(false, true);
    assert_eq!(p.position.y, 767);
}

#[test]
fn steer_with_both_keys_at_the_top_moves_down() {
    let mut p = paddle_at(4);
    p.steer(true, true);
    assert_eq!(p.position, Vec2::pixels(16, 12));
}

#[test]
fn steer_with_both_keys_at_the_bottom_comes_back() {
    // Up acts first and frees the paddle from the edge, so down acts too.
    let mut p = paddle_at(376);
    p.steer(true, true);
    assert_eq!(p.position, Vec2::pixels(16, 376));
    // From further down the paddle still touches the edge after going up.
    let mut p = paddle_at(390);
    p.steer(true, true);
    assert_eq!(p.position, Vec2::pixels(16, 382));
}

#[test]
fn steer_keeps_texture_x_and_velocity() {
    let t = Texture::new(9, 26, 100);
    let mut p = Entity::with_velocity(t, Vec2::pixels(16, 238), Vec2::new(1, 2));
    p.steer(true, false);
    assert_eq!(p.texture, t);
    assert_eq!(p.position.x, 32);
    assert_eq!(p.velocity, Vec2::new(1, 2));
}

#[test]
fn steer_never_leaves_the_band_round_the_field() {
    for start in -7..=767 {
        for keys in 0..4 {
            let mut p = paddle_at_half(start);
            p.steer(keys & 1 != 0, keys & 2 != 0);
            assert!(p.position.y > EDGE_MARGIN - PADDLE_SPEED);
            assert!(p.position.y + 200 < FIELD_HEIGHT - EDGE_MARGIN + PADDLE_SPEED);
        }
    }
}

#[test]
fn steer_at_the_ends_of_the_axis() {
    let mut p = paddle_at_half(i64::MIN);
    p.steer(true, true);
    assert_eq!(p.position.y, i64::MIN + 16);
    let mut p = paddle_at_half(i64::MAX);
    p.steer(true, true);
    assert_eq!(p.position.y, i64::MAX - 16);
}
