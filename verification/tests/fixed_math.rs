//! Exact values and range guarantees of the fixed-point math.

use starfield::fixed::{
    clamp_unit, cos_fx, gaussian_unit, isqrt, neg_ln_unit, sin_fx, HALF_PI_FX, PI_FX, SCALE,
    TWO_PI_FX,
};

#[test]
fn clamp_unit_pins_to_the_unit_interval() {
    assert_eq!(clamp_unit(-5), 0);
    assert_eq!(clamp_unit(0), 0);
    assert_eq!(clamp_unit(123), 123);
    assert_eq!(clamp_unit(SCALE), SCALE);
    assert_eq!(clamp_unit(SCALE + 1), SCALE);
    assert_eq!(clamp_unit(2_000_000), SCALE);
}

#[test]
fn isqrt_exact_values() {
    assert_eq!(isqrt(0), 0);
    assert_eq!(isqrt(1), 1);
    assert_eq!(isqrt(3), 1);
    assert_eq!(isqrt(4), 2);
    assert_eq!(isqrt(15), 3);
    assert_eq!(isqrt(16), 4);
    assert_eq!(isqrt(999_998_000_001), 999_999);
    assert_eq!(isqrt(999_999_999_999), 999_999);
    assert_eq!(isqrt(1_000_000_000_000), 1_000_000);
}

#[test]
fn sine_hits_its_zeroes_and_peak() {
    assert_eq!(sin_fx(0), 0);
    assert_eq!(sin_fx(PI_FX), 0);
    // the second half-turn is the negated first one; at the very end of
    // the turn the approximation is one micro-unit below zero
    assert_eq!(sin_fx(TWO_PI_FX), -1);
    let peak = sin_fx(HALF_PI_FX);
    assert!(peak > 990_000 && peak <= SCALE);
    let trough = sin_fx(PI_FX + HALF_PI_FX);
    assert!(trough < -990_000 && trough >= -SCALE);
}

#[test]
fn sine_stays_within_one_unit_over_the_whole_turn() {
    let mut a: i64 = 0;
    while a <= TWO_PI_FX {
        let s = sin_fx(a);
        assert!(-SCALE <= s && s <= SCALE);
        let c = cos_fx(a);
        assert!(-SCALE <= c && c <= SCALE);
        a += 10_007;
    }
}

#[test]
fn negated_log_exact_values() {
    // ln 1 == 0
    assert_eq!(neg_ln_unit(SCALE), 0);
    // -ln(1/2) == ln 2
    assert_eq!(neg_ln_unit(500_000), 693_147);
    // -ln(1/4) == 2 ln 2
    assert_eq!(neg_ln_unit(250_000), 1_386_294);
}

#[test]
fn gaussian_is_finite_even_at_a_zero_draw() {
    // u1 == 0 is the draw that would blow up an unguarded Box-Muller
    let g = gaussian_unit(0, 0);
    assert!(-6_000_000 <= g && g <= 6_000_000);
    // near the peak of -2 ln u1 the magnitude is around five sigma
    assert!(g > 4_000_000);
}

#[test]
fn gaussian_vanishes_when_the_log_term_vanishes() {
    // u1 near one gives a magnitude of about 0.0014, and the cosine of
    // a quarter turn scales it to nothing
    assert_eq!(gaussian_unit(999_999, 250_000), 0);
}

#[test]
fn gaussian_is_always_within_six_sigma() {
    let mut u1: i64 = 0;
    while u1 < SCALE {
        let g = gaussian_unit(u1, (u1 * 7) % SCALE);
        assert!(-6_000_000 <= g && g <= 6_000_000);
        u1 += 33_333;
    }
}
