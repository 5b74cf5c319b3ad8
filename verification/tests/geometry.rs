//! The fixed-point kernels and the contact utility.

use boxing::contact::get_contact_distance;
use boxing::fx::{div_pos, fx_add, fx_mul, isqrt, FX_LIMIT, FX_ONE};
use boxing::trig::{atan2_fp, lg2_fp, sin_fp, FX_HALF_PI, FX_PI};
use boxing::vec2::{v2_mag, v2_norm, Vec2};

#[test]
fn scalar_ops_exact_values() {
    assert_eq!(fx_add(1_500_000, 2_000_000), 3_500_000);
    assert_eq!(fx_mul(1_500_000, 2_000_000), 3_000_000);
    assert_eq!(div_pos(-7, 2), -3);
    assert_eq!(div_pos(7, 2), 3);
}

#[test]
fn scalar_ops_saturate() {
    assert_eq!(fx_add(FX_LIMIT, FX_LIMIT), FX_LIMIT);
    assert_eq!(fx_add(-FX_LIMIT, -FX_LIMIT), -FX_LIMIT);
    assert_eq!(fx_mul(FX_LIMIT, FX_LIMIT), FX_LIMIT);
}

#[test]
fn integer_square_roots() {
    assert_eq!(isqrt(0), 0);
    assert_eq!(isqrt(1), 1);
    assert_eq!(isqrt(999_999), 999);
    assert_eq!(isqrt(1_000_000_000_000), 1_000_000);
    assert_eq!(isqrt(2), 1);
}

#[test]
fn magnitude_three_four_five() {
    assert_eq!(v2_mag(Vec2 { x: 3_000_000, y: 4_000_000 }), 5_000_000);
    assert_eq!(v2_mag(Vec2 { x: -3_000_000, y: 4_000_000 }), 5_000_000);
    assert_eq!(v2_mag(Vec2 { x: 0, y: 0 }), 0);
}

#[test]
fn normalization_unit_and_zero() {
    assert_eq!(v2_norm(Vec2 { x: 20_000_000, y: 0 }), Vec2 { x: FX_ONE, y: 0 });
    assert_eq!(v2_norm(Vec2 { x: 0, y: -20_000_000 }), Vec2 { x: 0, y: -FX_ONE });
    // the zero vector normalizes to itself: the safe default
    assert_eq!(v2_norm(Vec2 { x: 0, y: 0 }), Vec2 { x: 0, y: 0 });
}

#[test]
fn trig_fixed_points() {
    assert_eq!(sin_fp(0), 0);
    assert!(sin_fp(FX_HALF_PI) > 999_000);
    assert!(sin_fp(-FX_HALF_PI) < -999_000);
    assert_eq!(atan2_fp(0, 0), 0);
    assert_eq!(atan2_fp(0, 5_000_000), 0);
    assert_eq!(atan2_fp(5_000_000, 0), FX_HALF_PI);
    assert_eq!(atan2_fp(0, -5_000_000), FX_PI);
    assert_eq!(atan2_fp(5_000_000, 5_000_000), 785_398);
}

#[test]
fn log_fixed_points() {
    assert_eq!(lg2_fp(1_000_000), 0);
    assert_eq!(lg2_fp(2_000_000), 1_000_000);
    assert_eq!(lg2_fp(64_000_000), 6_000_000);
    assert!(lg2_fp(500_000) < -900_000);
}

#[test]
fn contact_within_tolerance() {
    let a = Vec2 { x: 0, y: 0 };
    let b = Vec2 { x: 30_000_000, y: 0 };
    // gap: 30 - 15 - 26 = -11 units of penetration
    assert_eq!(get_contact_distance(a, 15_000_000, b, 26_000_000), Some(-11_000_000));
}

#[test]
fn contact_beyond_tolerance() {
    let a = Vec2 { x: 0, y: 0 };
    let b = Vec2 { x: 100_000_000, y: 0 };
    assert_eq!(get_contact_distance(a, 15_000_000, b, 26_000_000), None);
}

#[test]
fn contact_symmetric_sampled_pairs() {
    let samples = [
        (Vec2 { x: 0, y: 0 }, 15_000_000, Vec2 { x: 30_000_000, y: 0 }, 26_000_000),
        (Vec2 { x: -5_000_000, y: 7_000_000 }, 15_000_000, Vec2 { x: 20_000_000, y: -9_000_000 }, 26_000_000),
        (Vec2 { x: 100_000_000, y: 250_000_000 }, 15_000_000, Vec2 { x: 101_000_000, y: 251_000_000 }, 15_000_000),
        (Vec2 { x: 3_000_000, y: 4_000_000 }, 1_000_000, Vec2 { x: 3_000_000, y: 4_000_000 }, 2_000_000),
        (Vec2 { x: 0, y: 0 }, 26_000_000, Vec2 { x: 400_000_000, y: 400_000_000 }, 26_000_000),
    ];
    for &(a_pos, a_radius, b_pos, b_radius) in &samples {
        assert_eq!(
            get_contact_distance(a_pos, a_radius, b_pos, b_radius),
            get_contact_distance(b_pos, b_radius, a_pos, a_radius),
        );
    }
}
