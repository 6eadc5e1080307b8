//! Tests for the fixed-point arithmetic core and the trigonometry helpers.

use lightspot::fixed::{
    fx_clamp_unit, fx_div, fx_mul, fx_sqrt, isqrt64, sat_add, sat_sub, FX_HALF, FX_ONE,
};
use lightspot::trig::sin_cos_deg;

const ONE: i64 = FX_ONE;

#[test]
fn saturating_add_sub() {
    assert_eq!(sat_add(2, 3), 5);
    assert_eq!(sat_add(i64::MAX, 1), i64::MAX);
    assert_eq!(sat_add(i64::MIN, -1), i64::MIN);
    assert_eq!(sat_sub(2, 3), -1);
    assert_eq!(sat_sub(i64::MIN, 1), i64::MIN);
    assert_eq!(sat_sub(i64::MAX, -1), i64::MAX);
}

#[test]
fn fixed_multiplication() {
    assert_eq!(fx_mul(3 * ONE, 2 * ONE), 6 * ONE);
    assert_eq!(fx_mul(ONE / 2, ONE / 2), ONE / 4);
    assert_eq!(fx_mul(-ONE / 2, ONE / 2), -ONE / 4);
    assert_eq!(fx_mul(-ONE / 2, -ONE / 2), ONE / 4);
    assert_eq!(fx_mul(ONE, 0), 0);
    assert_eq!(fx_mul(12345, ONE), 12345);
    // truncation toward zero
    assert_eq!(fx_mul(1, 3), 0);
    assert_eq!(fx_mul(-1, 3), 0);
    // saturation instead of wrapping
    assert_eq!(fx_mul(i64::MAX, 2 * ONE), i64::MAX);
    assert_eq!(fx_mul(i64::MAX, -2 * ONE), i64::MIN);
}

#[test]
fn fixed_division() {
    assert_eq!(fx_div(ONE, 2 * ONE), ONE / 2);
    assert_eq!(fx_div(6 * ONE, 3 * ONE), 2 * ONE);
    assert_eq!(fx_div(-6 * ONE, 3 * ONE), -2 * ONE);
    assert_eq!(fx_div(1, 3), 349525);
    assert_eq!(fx_div(0, 7), 0);
}

#[test]
fn integer_square_root() {
    assert_eq!(isqrt64(0), 0);
    assert_eq!(isqrt64(1), 1);
    assert_eq!(isqrt64(3), 1);
    assert_eq!(isqrt64(4), 2);
    assert_eq!(isqrt64(16777216000), 129526);
    assert_eq!(isqrt64(u64::MAX), 4294967295);
}

#[test]
fn fixed_square_root() {
    assert_eq!(fx_sqrt(0), 0);
    assert_eq!(fx_sqrt(ONE), ONE);
    assert_eq!(fx_sqrt(ONE / 4), ONE / 2);
}

#[test]
fn unit_clamp() {
    assert_eq!(fx_clamp_unit(-7), 0);
    assert_eq!(fx_clamp_unit(123), 123);
    assert_eq!(fx_clamp_unit(ONE + 1), ONE);
    assert_eq!(FX_HALF * 2, ONE);
}

#[test]
fn sine_cosine_quarter_turns() {
    assert_eq!(sin_cos_deg(0), (0, ONE));
    assert_eq!(sin_cos_deg(90 * ONE), (ONE, 0));
    assert_eq!(sin_cos_deg(180 * ONE), (0, -ONE));
    assert_eq!(sin_cos_deg(270 * ONE), (-ONE, 0));
    assert_eq!(sin_cos_deg(360 * ONE), (0, ONE));
    assert_eq!(sin_cos_deg(450 * ONE), (ONE, 0));
    assert_eq!(sin_cos_deg(-90 * ONE), (-ONE, 0));
    assert_eq!(sin_cos_deg(-360 * ONE), (0, ONE));
}

#[test]
fn sine_cosine_approximation() {
    let (s30, c60) = (sin_cos_deg(30 * ONE).0, sin_cos_deg(60 * ONE).1);
    // sin 30 deg == cos 60 deg == 1/2, up to the documented approximation
    assert!((s30 - ONE / 2).abs() <= 64, "sin 30 = {s30}");
    assert!((c60 - ONE / 2).abs() <= 64, "cos 60 = {c60}");
    let (s45, c45) = sin_cos_deg(45 * ONE);
    // sin 45 deg == cos 45 deg == sqrt(1/2) ~ 0.7071
    let root_half = fx_sqrt(ONE / 2);
    assert!((s45 - root_half).abs() <= 64, "sin 45 = {s45}");
    assert!((c45 - root_half).abs() <= 64, "cos 45 = {c45}");
}
