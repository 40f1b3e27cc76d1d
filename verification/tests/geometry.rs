//! Integer square roots, distances and clamping.

use chicken_sim::Vec2;
use chicken_sim::clamp_i64;
use chicken_sim::dist_milli;
use chicken_sim::isqrt;

#[test]
fn isqrt_small_values() {
    assert_eq!(isqrt(0), 0);
    assert_eq!(isqrt(1), 1);
    assert_eq!(isqrt(2), 1);
    assert_eq!(isqrt(3), 1);
    assert_eq!(isqrt(4), 2);
    assert_eq!(isqrt(24), 4);
    assert_eq!(isqrt(25), 5);
    assert_eq!(isqrt(26), 5);
}

#[test]
fn isqrt_large_values() {
    assert_eq!(isqrt(1_000_000_000_000), 1_000_000);
    assert_eq!(isqrt(999_999_999_999), 999_999);
    assert_eq!(isqrt(u64::MAX), 4_294_967_295);
}

#[test]
fn dist_pythagorean_triple() {
    let a = Vec2 { x: 0, y: 0 };
    let b = Vec2 { x: 3_000, y: 4_000 };
    assert_eq!(dist_milli(a, b), 5_000);
    assert_eq!(dist_milli(b, a), 5_000);
}

#[test]
fn dist_zero_for_equal_points() {
    let a = Vec2 { x: -123, y: 456 };
    assert_eq!(dist_milli(a, a), 0);
}

#[test]
fn dist_rounds_down() {
    let a = Vec2 { x: 0, y: 0 };
    let b = Vec2 { x: 1_000, y: 1_000 };
    assert_eq!(dist_milli(a, b), 1_414);
}

#[test]
fn clamp_forces_into_interval() {
    assert_eq!(clamp_i64(5, -10, 10), 5);
    assert_eq!(clamp_i64(-11, -10, 10), -10);
    assert_eq!(clamp_i64(11, -10, 10), 10);
    assert_eq!(clamp_i64(10, -10, 10), 10);
}
