//! Concrete checks of the distance and direction math.

use syngesture::geometry::{
    distance_squared, get_direction, get_distance, int_sqrt, pos, Direction,
};

#[test]
fn distance_345_triangle() {
    let a = pos(0, 0);
    let b = pos(3, 4);
    assert_eq!(distance_squared(&a, &b), 25);
    assert_eq!(get_distance(&a, &b), 5);
}

#[test]
fn distance_rounds_down() {
    let a = pos(0, 0);
    let b = pos(1, 2);
    assert_eq!(distance_squared(&a, &b), 5);
    assert_eq!(get_distance(&a, &b), 2);
}

#[test]
fn distance_to_self_is_zero() {
    let a = pos(-123, 456);
    assert_eq!(distance_squared(&a, &a), 0);
    assert_eq!(get_distance(&a, &a), 0);
}

#[test]
fn distance_is_symmetric() {
    let a = pos(1, 2);
    let b = pos(4, 6);
    assert_eq!(distance_squared(&a, &b), distance_squared(&b, &a));
    assert_eq!(get_distance(&a, &b), get_distance(&b, &a));
}

#[test]
fn distance_handles_extreme_coordinates() {
    let a = pos(i32::MIN, i32::MIN);
    let b = pos(i32::MAX, i32::MAX);
    let d2 = distance_squared(&a, &b);
    let d = get_distance(&a, &b);
    // Each axis difference is 2^32 - 1.
    let side = (u64::from(u32::MAX)) as u128;
    assert_eq!(d2, 2 * side * side);
    let r = d as u128;
    assert!(r * r <= d2);
    assert!((r + 1) * (r + 1) > d2);
}

#[test]
fn int_sqrt_exact_values() {
    assert_eq!(int_sqrt(0), 0);
    assert_eq!(int_sqrt(1), 1);
    assert_eq!(int_sqrt(3), 1);
    assert_eq!(int_sqrt(4), 2);
    assert_eq!(int_sqrt(90000), 300);
    assert_eq!(int_sqrt(89999), 299);
    assert_eq!(int_sqrt(u128::from(u64::MAX)), 0xFFFF_FFFF);
}

#[test]
fn direction_pure_axes() {
    let o = pos(0, 0);
    assert_eq!(get_direction(&o, &pos(10, 0)), Direction::Right);
    assert_eq!(get_direction(&o, &pos(-10, 0)), Direction::Left);
    assert_eq!(get_direction(&o, &pos(0, 10)), Direction::Down);
    assert_eq!(get_direction(&o, &pos(0, -10)), Direction::Up);
}

#[test]
fn direction_bias_favors_horizontal() {
    let o = pos(0, 0);
    // |dx| must exceed 1.05 * |dy| to read as horizontal: 21 vs 20 ties
    // (20 * 21 == 21 * 20), so the vertical reading wins; 22 vs 20 is
    // horizontal.
    assert_eq!(get_direction(&o, &pos(21, 20)), Direction::Down);
    assert_eq!(get_direction(&o, &pos(22, 20)), Direction::Right);
    assert_eq!(get_direction(&o, &pos(-22, 20)), Direction::Left);
    assert_eq!(get_direction(&o, &pos(21, -20)), Direction::Up);
    // A perfect diagonal reads as vertical.
    assert_eq!(get_direction(&o, &pos(100, 100)), Direction::Down);
    assert_eq!(get_direction(&o, &pos(-100, -100)), Direction::Up);
}

#[test]
fn direction_of_no_motion_is_up() {
    // Degenerate case: no travel at all reads as Up (dy == 0 is not > 0).
    let o = pos(5, 5);
    assert_eq!(get_direction(&o, &pos(5, 5)), Direction::Up);
}
