//! Fixed-point arithmetic in micro-units.
//!
//! A value `v` in micro-units stands for the real number `v / 1_000_000`.
//! Everything the simulation computes — positions, velocities, alphas,
//! trigonometry for the twinkle and the Gaussian field sampling — is done
//! on these integers, so the whole update loop verifies without floating
//! point.

use vstd::prelude::*;

verus! {

use vstd::arithmetic::div_mod::{
    lemma_div_is_ordered, lemma_div_multiples_vanish, lemma_div_pos_is_pos,
};

/// One whole unit in micro-units.
pub const SCALE: i64 = 1_000_000;

/// One half unit in micro-units.
pub const HALF_UNIT: i64 = 500_000;

/// The circle constant pi in micro-radians.
pub const PI_FX: i64 = 3_141_593;

/// Two pi in micro-radians; angles live in `[0, TWO_PI_FX)`.
pub const TWO_PI_FX: i64 = 6_283_185;

/// Half pi in micro-radians.
pub const HALF_PI_FX: i64 = 1_570_796;

/// The natural logarithm of two, in micro-units.
pub const LN2_FX: i64 = 693_147;

/// Truncated (round-toward-zero) quotient, the way Rust's `/` divides.
pub open spec fn div_trunc(a: int, d: int) -> int {
    if a >= 0 {
        a / d
    } else {
        -((-a) / d)
    }
}

/// `a * num / den` with truncation toward zero.
pub open spec fn spec_scale_div(a: int, num: int, den: int) -> int {
    div_trunc(a * num, den)
}

/// Scales `a` by the ratio `num / den`, truncating toward zero.
pub fn scale_div(a: i64, num: i64, den: i64) -> (r: i64)
    requires
        0 <= num,
        0 < den,
        -0x4000_0000_0000_0000 <= a * num <= 0x4000_0000_0000_0000,
        -0x4000_0000_0000_0000 <= a <= 0x4000_0000_0000_0000,
    ensures
        r == spec_scale_div(a as int, num as int, den as int),
{
    if a >= 0 {
        (a * num) / den
    } else {
        proof {
            assert((-a) * num == -(a * num)) by (nonlinear_arith);
        }
        -(((-a) * num) / den)
    }
}

/// A scaled value stays within `[-c, c]` whenever the product `a * num`
/// stays within `[-c * den, c * den]`.
pub proof fn lemma_scale_div_le(a: int, num: int, den: int, c: int)
    requires
        0 < den,
        0 <= c,
        -(c * den) <= a * num <= c * den,
    ensures
        -c <= spec_scale_div(a, num, den) <= c,
{
    let p = a * num;
    lemma_div_multiples_vanish(c, den);
    assert(den * c == c * den) by (nonlinear_arith);
    if p >= 0 {
        lemma_div_is_ordered(p, c * den, den);
        lemma_div_pos_is_pos(p, den);
    } else {
        lemma_div_is_ordered(-p, c * den, den);
        lemma_div_pos_is_pos(-p, den);
    }
}

/// A scaled value of a nonnegative input is nonnegative.
pub proof fn lemma_scale_div_nonneg(a: int, num: int, den: int)
    requires
        0 <= a,
        0 <= num,
        0 < den,
    ensures
        0 <= spec_scale_div(a, num, den),
{
    assert(a * num >= 0) by (nonlinear_arith)
        requires 0 <= a, 0 <= num;
    lemma_div_pos_is_pos(a * num, den);
}

/// Clamping to the unit interval `[0, SCALE]`.
pub open spec fn spec_clamp_unit(a: int) -> int {
    if a < 0 {
        0
    } else if a > SCALE {
        SCALE as int
    } else {
        a
    }
}

/// Clamps `a` to the unit interval `[0, SCALE]`.
pub fn clamp_unit(a: i64) -> (r: i64)
    ensures
        r == spec_clamp_unit(a as int),
        0 <= r <= SCALE,
{
    if a < 0 {
        0
    } else if a > SCALE {
        SCALE
    } else {
        a
    }
}

/// `r` is the integer square root (floor) of `n`.
pub open spec fn is_sqrt_floor(n: int, r: int) -> bool {
    0 <= r && r * r <= n && n < (r + 1) * (r + 1)
}

/// The integer square root (floor) of `n`.
pub open spec fn spec_isqrt(n: int) -> int {
    choose|r: int| is_sqrt_floor(n, r)
}

/// The integer square root is unique.
pub proof fn lemma_sqrt_floor_unique(n: int, r1: int, r2: int)
    by (nonlinear_arith)
    requires
        0 <= r1,
        r1 * r1 <= n,
        n < (r1 + 1) * (r1 + 1),
        0 <= r2,
        r2 * r2 <= n,
        n < (r2 + 1) * (r2 + 1),
    ensures
        r1 == r2,
{
}

/// Integer square root by binary search.
pub fn isqrt(n: u64) -> (r: u64)
    ensures
        is_sqrt_floor(n as int, r as int),
        r == spec_isqrt(n as int),
{
    let mut lo: u64 = 0;
    let mut hi: u64 = 4_294_967_296;
    proof {
        assert((n as int) < 4_294_967_296 * 4_294_967_296) by (nonlinear_arith)
            requires n <= 0xffff_ffff_ffff_ffff;
    }
    while lo + 1 < hi
        invariant
            lo < hi <= 4_294_967_296,
            (lo as int) * (lo as int) <= n as int,
            (n as int) < (hi as int) * (hi as int),
        decreases hi - lo,
    {
        let mid = lo + (hi - lo) / 2;
        proof {
            assert(mid * mid <= 0xffff_ffff_ffff_ffff) by (nonlinear_arith)
                requires mid <= 4_294_967_295;
        }
        if mid * mid <= n {
            lo = mid;
        } else {
            hi = mid;
        }
    }
    proof {
        assert(is_sqrt_floor(n as int, lo as int));
        assert(exists|r: int| is_sqrt_floor(n as int, r));
        let w = spec_isqrt(n as int);
        assert(is_sqrt_floor(n as int, w));
        lemma_sqrt_floor_unique(n as int, lo as int, w);
    }
    lo
}

/// The Bhaskara rational approximation of the sine on `[0, PI_FX]`,
/// in micro-units.
pub open spec fn spec_half_sin(x: int) -> int {
    let t = x * (PI_FX - x);
    let num = 16 * t;
    let den = 5 * (PI_FX as int) * (PI_FX as int) - 4 * t;
    ((num / 1000) * (SCALE as int)) / (den / 1000)
}

/// The approximate sine on `[0, TWO_PI_FX]`, in micro-units: the second
/// half-turn is the negated first half-turn.
pub open spec fn spec_sin(x: int) -> int {
    if x <= PI_FX {
        spec_half_sin(x)
    } else {
        -spec_half_sin(x - PI_FX)
    }
}

/// The argument the cosine is reduced to: a quarter turn ahead,
/// wrapped back into `[0, TWO_PI_FX]`.
pub open spec fn spec_cos_arg(x: int) -> int {
    if x + HALF_PI_FX <= TWO_PI_FX {
        x + HALF_PI_FX
    } else {
        x + HALF_PI_FX - TWO_PI_FX
    }
}

/// The approximate cosine on `[0, TWO_PI_FX]`, in micro-units.
pub open spec fn spec_cos(x: int) -> int {
    spec_sin(spec_cos_arg(x))
}

fn half_sin(x: i64) -> (r: i64)
    requires
        0 <= x <= PI_FX,
    ensures
        r == spec_half_sin(x as int),
        0 <= r <= SCALE,
{
    proof {
        assert(0 <= x * (PI_FX - x) && 4 * (x * (PI_FX - x)) <= PI_FX * PI_FX)
            by (nonlinear_arith)
            requires 0 <= x <= PI_FX;
    }
    let t: i64 = x * (PI_FX - x);
    let num: i64 = 16 * t;
    let den: i64 = 5 * PI_FX * PI_FX - 4 * t;
    let a: i64 = num / 1000;
    let b: i64 = den / 1000;
    proof {
        lemma_div_is_ordered(num as int, den as int, 1000);
        lemma_div_pos_is_pos(num as int, 1000);
        lemma_div_is_ordered((a as int) * (SCALE as int), (b as int) * (SCALE as int), b as int);
        assert((b as int) * (SCALE as int) == (SCALE as int) * (b as int)) by (nonlinear_arith);
        lemma_div_multiples_vanish(SCALE as int, b as int);
        assert((a as int) * (SCALE as int) >= 0) by (nonlinear_arith)
            requires a >= 0;
        lemma_div_pos_is_pos((a as int) * (SCALE as int), b as int);
        assert((a as int) * (SCALE as int) <= 49_348_037_178_000_000) by (nonlinear_arith)
            requires 0 <= a <= 49_348_037_178;
    }
    (a * SCALE) / b
}

/// The approximate sine of an angle in `[0, TWO_PI_FX]` micro-radians,
/// in micro-units.
pub fn sin_fx(x: i64) -> (r: i64)
    requires
        0 <= x <= TWO_PI_FX,
    ensures
        r == spec_sin(x as int),
        -SCALE <= r <= SCALE,
{
    if x <= PI_FX {
        half_sin(x)
    } else {
        -half_sin(x - PI_FX)
    }
}

/// The approximate cosine of an angle in `[0, TWO_PI_FX]` micro-radians,
/// in micro-units.
pub fn cos_fx(x: i64) -> (r: i64)
    requires
        0 <= x <= TWO_PI_FX,
    ensures
        r == spec_cos(x as int),
        -SCALE <= r <= SCALE,
{
    let y = if x + HALF_PI_FX <= TWO_PI_FX {
        x + HALF_PI_FX
    } else {
        x + HALF_PI_FX - TWO_PI_FX
    };
    sin_fx(y)
}

/// The negated natural logarithm of `u / SCALE` for `u` in `(0, SCALE]`,
/// in micro-units: `u` is doubled into `(HALF_UNIT, SCALE]` (each doubling
/// contributes `ln 2`) and the rest comes from the series of
/// `-ln(1 - t)` up to the cubic term.
pub fn neg_ln_unit(u: i64) -> (r: i64)
    requires
        1 <= u <= SCALE,
    ensures
        0 <= r < 16_000_000,
        u == SCALE ==> r == 0,
{
    let mut v: i64 = u;
    let mut p: i64 = 0;
    while v <= HALF_UNIT && p < 20
        invariant
            1 <= v <= SCALE,
            0 <= p <= 20,
            u == SCALE ==> (v == SCALE && p == 0),
        decreases 20 - p,
    {
        v = v * 2;
        p = p + 1;
    }
    let t: i64 = SCALE - v;
    proof {
        assert(0 <= t * t <= 1_000_000_000_000) by (nonlinear_arith)
            requires 0 <= t <= 1_000_000;
        assert(0 <= (t * t) * t <= 1_000_000_000_000_000_000) by (nonlinear_arith)
            requires 0 <= t <= 1_000_000, 0 <= t * t <= 1_000_000_000_000;
    }
    let t2: i64 = (t * t) / 2_000_000;
    let t3: i64 = ((t * t) * t) / 3_000_000_000_000;
    p * LN2_FX + t + t2 + t3
}

/// A standard-normal sample in micro-units, from two uniform micro-unit
/// samples by the Box–Muller transform: `sqrt(-2 ln u1) * cos(2 pi u2)`.
/// `u1` is clamped away from zero, so the magnitude is always finite;
/// the result lies within six standard deviations.
pub fn gaussian_unit(u1: i64, u2: i64) -> (g: i64)
    requires
        0 <= u1 < SCALE,
        0 <= u2 < SCALE,
    ensures
        -6_000_000 <= g <= 6_000_000,
{
    let c1: i64 = if u1 < 1 {
        1
    } else {
        u1
    };
    let l = neg_ln_unit(c1);
    let s2: i64 = 2 * l;
    let mag64: u64 = isqrt((s2 as u64) * 1_000_000);
    proof {
        assert(mag64 <= 5_656_854) by (nonlinear_arith)
            requires
                mag64 >= 0,
                (mag64 as int) * (mag64 as int) <= 31_999_998_000_000,
        ;
    }
    let mag: i64 = mag64 as i64;
    let ang = scale_div(u2, TWO_PI_FX, SCALE);
    proof {
        assert(0 <= (u2 as int) * (TWO_PI_FX as int) <= (TWO_PI_FX as int) * (SCALE as int))
            by (nonlinear_arith)
            requires 0 <= u2 < SCALE;
        lemma_scale_div_le(u2 as int, TWO_PI_FX as int, SCALE as int, TWO_PI_FX as int);
        lemma_div_pos_is_pos((u2 as int) * (TWO_PI_FX as int), SCALE as int);
    }
    let c = cos_fx(ang);
    proof {
        assert(-(6_000_000 * (SCALE as int)) <= (c as int) * (mag as int)
            <= 6_000_000 * (SCALE as int)) by (nonlinear_arith)
            requires
                -(SCALE as int) <= c <= SCALE as int,
                0 <= mag <= 5_656_854,
        ;
        lemma_scale_div_le(c as int, mag as int, SCALE as int, 6_000_000);
    }
    scale_div(c, mag, SCALE)
}

} // verus!
