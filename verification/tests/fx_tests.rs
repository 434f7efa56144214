//! The fixed-point scalar: rounding, roots, and tolerant
//! comparison.

use ray_tracer::fx::{are_equal, isqrt, Fx, CMP_EPS, SCALE};

const M_ONE: i128 = 1_000_000;

fn fx(units: i128) -> Fx {
    Fx::from_units(units)
}

#[test]
fn multiplication_truncates_toward_zero() {
    assert_eq!(fx(1_500_000).mul(fx(1_500_000)), fx(2_250_000));
    assert_eq!(fx(-1_500_000).mul(fx(1_500_000)), fx(-2_250_000));
    assert_eq!(fx(1).mul(fx(1)), fx(0));
    assert_eq!(fx(-1).mul(fx(1)), fx(0));
}

#[test]
fn division_truncates_toward_zero() {
    assert_eq!(fx(7 * SCALE).div(fx(2 * SCALE)), fx(3_500_000));
    assert_eq!(fx(-7 * SCALE).div(fx(2 * SCALE)), fx(-3_500_000));
    assert_eq!(fx(M_ONE).div(fx(3 * SCALE)), fx(333_333));
    assert_eq!(fx(-M_ONE).div(fx(3 * SCALE)), fx(-333_333));
}

#[test]
fn square_roots_of_perfect_squares_are_exact() {
    assert_eq!(fx(4 * SCALE).sqrt(), fx(2 * SCALE));
    assert_eq!(fx(2_250_000).sqrt(), fx(1_500_000));
    assert_eq!(isqrt(144), 12);
    assert_eq!(isqrt(145), 12);
    assert_eq!(isqrt(0), 0);
}

#[test]
fn floor_rounds_toward_negative_infinity() {
    assert_eq!(fx(1_500_000).floor(), 1);
    assert_eq!(fx(-1_500_000).floor(), -2);
    assert_eq!(fx(-2_000_000).floor(), -2);
    assert_eq!(fx(0).floor(), 0);
}

#[test]
fn tolerant_comparison_allows_small_rounding_drift() {
    assert!(are_equal(fx(5 * SCALE), fx(5 * SCALE + CMP_EPS)));
    assert!(!are_equal(fx(5 * SCALE), fx(5 * SCALE + CMP_EPS + 1)));
    assert!(are_equal(fx(-3), fx(3)));
}

#[test]
fn powers_of_values_up_to_one_stay_in_range() {
    assert_eq!(fx(SCALE).powi(200), fx(SCALE));
    assert_eq!(fx(500_000).powi(2), fx(250_000));
    assert_eq!(fx(0).powi(5), fx(0));
    assert_eq!(fx(700_000).powi(0), fx(SCALE));
}
