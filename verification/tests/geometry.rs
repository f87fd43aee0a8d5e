use tiles::geometry::{clamp_position, clamp_size, round_div, Rect, MAX_EXTENT, MIN_POSITION};

#[test]
fn rect_is_half_open_on_both_axes() {
    let rect = Rect::new(1, 2, 3, 4);
    assert!(rect.contains_point(1, 2));
    assert!(!rect.contains_point(0, 1));
    assert!(rect.contains_point(3, 5));
    assert!(!rect.contains_point(4, 6));
    assert!(!rect.contains_point(4, 5));
    assert!(!rect.contains_point(3, 6));
    assert!(!rect.contains_point(0, 2));
    assert!(!rect.contains_point(1, 1));
}

#[test]
fn one_by_one_rect_holds_one_pixel() {
    let rect = Rect::new(7, 9, 1, 1);
    let mut inside = 0;
    for x in 5..10 {
        for y in 7..12 {
            if rect.contains_point(x, y) {
                inside += 1;
            }
        }
    }
    assert_eq!(inside, 1);
    assert!(rect.contains_point(7, 9));
}

#[test]
fn rect_new_keeps_ordinary_values() {
    let rect = Rect::new(-5, 600, 50, 42);
    assert_eq!(rect, Rect { x: -5, y: 600, width: 50, height: 42 });
    assert_eq!(rect.right(), 45);
    assert_eq!(rect.bottom(), 642);
}

#[test]
fn rect_new_replaces_zero_extent_by_one() {
    let rect = Rect::new(3, 4, 0, 0);
    assert_eq!(rect, Rect { x: 3, y: 4, width: 1, height: 1 });
    assert!(rect.contains_point(3, 4));
    assert!(!rect.contains_point(4, 4));
}

#[test]
fn rect_new_clamps_far_values() {
    let rect = Rect::new(i32::MAX, i32::MIN, u32::MAX, 1073741824);
    assert_eq!(rect.x, 1073741823);
    assert_eq!(rect.y, -1073741824);
    assert_eq!(rect.width, 1073741823);
    assert_eq!(rect.height, 1073741823);
    assert_eq!(rect.right(), 2147483646);
}

#[test]
fn clamp_position_values() {
    assert_eq!(MAX_EXTENT, i32::MAX / 2);
    assert_eq!(MIN_POSITION, i32::MIN / 2);
    assert_eq!(clamp_position(0), 0);
    assert_eq!(clamp_position(-17), -17);
    assert_eq!(clamp_position(1073741823), 1073741823);
    assert_eq!(clamp_position(1073741824), 1073741823);
    assert_eq!(clamp_position(i32::MAX), 1073741823);
    assert_eq!(clamp_position(-1073741824), -1073741824);
    assert_eq!(clamp_position(-1073741825), -1073741824);
    assert_eq!(clamp_position(i32::MIN), -1073741824);
}

#[test]
fn clamp_size_values() {
    assert_eq!(clamp_size(0), 1);
    assert_eq!(clamp_size(1), 1);
    assert_eq!(clamp_size(50), 50);
    assert_eq!(clamp_size(1073741823), 1073741823);
    assert_eq!(clamp_size(1073741824), 1073741823);
    assert_eq!(clamp_size(u32::MAX), 1073741823);
}

#[test]
fn point_is_clamped_before_the_test() {
    let rect = Rect::new(1073741800, 0, 100, 10);
    assert!(rect.contains_point(1073741823, 5));
    assert!(rect.contains_point(i32::MAX, 5));
    let low = Rect::new(i32::MIN, i32::MIN, 1, 1);
    assert!(low.contains_point(i32::MIN, i32::MIN));
    assert!(low.contains_point(-2000000000, -1073741824));
    assert!(!low.contains_point(-1073741823, -1073741824));
}

#[test]
fn contains_point_takes_any_fields() {
    let rect = Rect { x: i32::MAX, y: i32::MAX, width: u32::MAX, height: u32::MAX };
    assert!(!rect.contains_point(i32::MAX, i32::MAX));
    assert_eq!(rect.right(), 2147483647i64 + 4294967295i64);
    let wide = Rect { x: i32::MIN, y: i32::MIN, width: u32::MAX, height: u32::MAX };
    assert!(wide.contains_point(0, 0));
    assert!(wide.contains_point(i32::MIN, i32::MAX));
}

#[test]
fn round_div_rounds_to_nearest() {
    assert_eq!(round_div(0, 12), 0);
    assert_eq!(round_div(500, 12), 42);
    assert_eq!(round_div(1000, 12), 83);
    assert_eq!(round_div(1500, 12), 125);
    assert_eq!(round_div(800, 16), 50);
    assert_eq!(round_div(7, 2), 4);
    assert_eq!(round_div(5, 2), 3);
    assert_eq!(round_div(1, 2), 1);
    assert_eq!(round_div(1, 3), 0);
    assert_eq!(round_div(2, 3), 1);
    assert_eq!(round_div(9, 1), 9);
    assert_eq!(round_div(u32::MAX, 1), u32::MAX);
    assert_eq!(round_div(u32::MAX, u32::MAX), 1);
    assert_eq!(round_div(u32::MAX, 2), 2147483648);
    assert_eq!(round_div(1, u32::MAX), 0);
}

#[test]
fn round_div_agrees_with_rounding_a_float() {
    for num in 0u32..2000 {
        for den in 1u32..40 {
            let expected = (num as f64 / den as f64).round() as u32;
            assert_eq!(round_div(num, den), expected, "{} / {}", num, den);
        }
    }
}
