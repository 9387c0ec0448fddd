//! The random field generator: fresh star attributes and placement.
//!
//! Sampling has no contract beyond well-formedness — the draws are
//! random — but every function promises that what it builds satisfies
//! the star invariant on the given surface.

use vstd::prelude::*;

verus! {

use crate::fixed::{
    gaussian_unit, lemma_scale_div_le, lemma_scale_div_nonneg, scale_div, HALF_UNIT, SCALE,
    TWO_PI_FX,
};
use crate::particle::{
    cool_color, star_attrs_wf, star_wf, warm_color, white_color, Color, Star, ALPHA_BRIGHT,
    ALPHA_DIM, ALPHA_MID, CORE_RADIUS, MAX_DIM, RADIUS_MIN,
};
use crate::rng::Rng;

/// Draws a radius factor: `0.005 + 0.035 r^2` for a uniform `r`, biased
/// toward small stars.
fn sample_radius(rng: &mut Rng) -> (radius: i64)
    ensures
        RADIUS_MIN <= radius <= crate::particle::RADIUS_MAX,
{
    let r = rng.next_unit();
    proof {
        assert(0 <= r * r <= (SCALE as int) * (SCALE as int)) by (nonlinear_arith)
            requires 0 <= r <= SCALE;
    }
    let rr = scale_div(r, r, SCALE);
    proof {
        lemma_scale_div_nonneg(r as int, r as int, SCALE as int);
        lemma_scale_div_le(r as int, r as int, SCALE as int, SCALE as int);
        assert(0 <= (rr as int) * 35_000 <= 35_000 * (SCALE as int)) by (nonlinear_arith)
            requires 0 <= rr <= SCALE;
        lemma_scale_div_nonneg(rr as int, 35_000, SCALE as int);
        lemma_scale_div_le(rr as int, 35_000, SCALE as int, 35_000);
    }
    RADIUS_MIN + scale_div(rr, 35_000, SCALE)
}

/// Draws one velocity component, uniform in `[-0.05, 0.05]`.
fn sample_velocity(rng: &mut Rng) -> (v: i64)
    ensures
        -crate::particle::STAR_SPEED_LIMIT <= v <= crate::particle::STAR_SPEED_LIMIT,
{
    let r = rng.next_unit();
    let a = r - HALF_UNIT;
    proof {
        assert(-(50_000 * (SCALE as int)) <= (a as int) * 100_000 <= 50_000 * (SCALE as int))
            by (nonlinear_arith)
            requires -HALF_UNIT <= a < HALF_UNIT;
    }
    scale_div(a, 100_000, SCALE)
}

/// Draws a base brightness from the three discrete tiers.
fn sample_base_alpha(rng: &mut Rng) -> (base: i64)
    ensures
        base == ALPHA_DIM || base == ALPHA_MID || base == ALPHA_BRIGHT,
{
    let r = rng.next_unit();
    if r < 330_000 {
        ALPHA_DIM
    } else if r < 660_000 {
        ALPHA_MID
    } else {
        ALPHA_BRIGHT
    }
}

/// Draws a twinkle phase, uniform in `[0, TWO_PI_FX)`.
fn sample_phase(rng: &mut Rng) -> (phase: i64)
    ensures
        0 <= phase < TWO_PI_FX,
{
    let r = rng.next_unit();
    proof {
        assert(0 <= (r as int) * (TWO_PI_FX as int)
            <= ((SCALE - 1) as int) * (TWO_PI_FX as int)) by (nonlinear_arith)
            requires 0 <= r < SCALE;
        lemma_scale_div_nonneg(r as int, TWO_PI_FX as int, SCALE as int);
        vstd::arithmetic::div_mod::lemma_div_is_ordered(
            (r as int) * (TWO_PI_FX as int),
            ((SCALE - 1) as int) * (TWO_PI_FX as int),
            SCALE as int,
        );
    }
    scale_div(r, TWO_PI_FX, SCALE)
}

/// Draws a twinkle speed, uniform in `[0.002, 0.005)`.
fn sample_twinkle_speed(rng: &mut Rng) -> (speed: i64)
    ensures
        crate::particle::TWINKLE_SPEED_MIN <= speed <= crate::particle::TWINKLE_SPEED_MAX,
{
    let r = rng.next_unit();
    proof {
        assert(0 <= (r as int) * 3_000 <= 3_000 * (SCALE as int)) by (nonlinear_arith)
            requires 0 <= r < SCALE;
        lemma_scale_div_nonneg(r as int, 3_000, SCALE as int);
        lemma_scale_div_le(r as int, 3_000, SCALE as int, 3_000);
    }
    crate::particle::TWINKLE_SPEED_MIN + scale_div(r, 3_000, SCALE)
}

/// Draws one of the three fixed tints, each with probability one third.
fn sample_color(rng: &mut Rng) -> (c: Color)
    ensures
        crate::particle::is_star_color(c),
{
    let r = rng.next_unit();
    if r < 330_000 {
        warm_color()
    } else if r < 660_000 {
        cool_color()
    } else {
        white_color()
    }
}

/// Draws a coordinate uniform in `[0, bound)` (or `0` when the bound
/// is `0`).
pub(crate) fn sample_coord(rng: &mut Rng, bound: i64) -> (p: i64)
    requires
        0 <= bound <= MAX_DIM,
    ensures
        0 <= p <= bound,
{
    let r = rng.next_unit();
    proof {
        assert(0 <= (r as int) * (bound as int) <= (bound as int) * (SCALE as int))
            by (nonlinear_arith)
            requires 0 <= r < SCALE, 0 <= bound;
        lemma_scale_div_nonneg(r as int, bound as int, SCALE as int);
        lemma_scale_div_le(r as int, bound as int, SCALE as int, bound as int);
    }
    scale_div(r, bound, SCALE)
}

/// Samples a fresh star for a `w` by `h` surface, following the field's
/// placement policy: large stars may gather in a central core box; other
/// stars spread uniformly in `x`, with `y` drawn mostly from a Gaussian
/// band around the vertical center (clamped to the surface) and otherwise
/// uniformly.
pub fn sample_star(rng: &mut Rng, w: i64, h: i64) -> (s: Star)
    requires
        0 <= w <= MAX_DIM,
        0 <= h <= MAX_DIM,
    ensures
        star_wf(s, w as int, h as int),
{
    let radius = sample_radius(rng);
    let x: i64;
    let y: i64;
    if radius > CORE_RADIUS && rng.next_unit() < HALF_UNIT {
        // A denser visual core of bright stars around the center.
        let ax = rng.next_unit() - HALF_UNIT;
        let ay = rng.next_unit() - HALF_UNIT;
        proof {
            assert(-((w / 5) * (SCALE as int)) <= (ax as int) * ((w / 5) as int)
                <= (w / 5) * (SCALE as int)) by (nonlinear_arith)
                requires -HALF_UNIT <= ax < HALF_UNIT, 0 <= w / 5;
            lemma_scale_div_le(ax as int, (w / 5) as int, SCALE as int, (w / 5) as int);
            assert(-((h / 5) * (SCALE as int)) <= (ay as int) * ((h / 5) as int)
                <= (h / 5) * (SCALE as int)) by (nonlinear_arith)
                requires -HALF_UNIT <= ay < HALF_UNIT, 0 <= h / 5;
            lemma_scale_div_le(ay as int, (h / 5) as int, SCALE as int, (h / 5) as int);
        }
        x = w / 2 + scale_div(ax, w / 5, SCALE);
        y = h / 2 + scale_div(ay, h / 5, SCALE);
    } else {
        x = sample_coord(rng, w);
        let chance = rng.next_unit();
        if chance < 800_000 {
            // A Gaussian band around the vertical center, clamped to
            // the surface.
            let u1 = rng.next_unit();
            let u2 = rng.next_unit();
            let g = gaussian_unit(u1, u2);
            proof {
                assert(0 <= (h as int) * 150_000 <= (h as int) * (SCALE as int))
                    by (nonlinear_arith)
                    requires 0 <= h;
                lemma_scale_div_nonneg(h as int, 150_000, SCALE as int);
                lemma_scale_div_le(h as int, 150_000, SCALE as int, h as int);
            }
            let sigma = scale_div(h, 150_000, SCALE);
            proof {
                assert(-(6 * (sigma as int) * (SCALE as int)) <= (g as int) * (sigma as int)
                    <= 6 * (sigma as int) * (SCALE as int)) by (nonlinear_arith)
                    requires -6_000_000 <= g <= 6_000_000, 0 <= sigma;
                lemma_scale_div_le(g as int, sigma as int, SCALE as int, 6 * (sigma as int));
            }
            let y_raw = h / 2 + scale_div(g, sigma, SCALE);
            y = if y_raw < 0 {
                0
            } else if y_raw > h {
                h
            } else {
                y_raw
            };
        } else {
            y = sample_coord(rng, h);
        }
    }
    let base_alpha = sample_base_alpha(rng);
    Star {
        x,
        y,
        radius,
        vx: sample_velocity(rng),
        vy: sample_velocity(rng),
        base_alpha,
        twinkle_phase: sample_phase(rng),
        twinkle_speed: sample_twinkle_speed(rng),
        alpha: base_alpha,
        color: sample_color(rng),
    }
}

/// Samples a fresh star pinned to a given position, the way backfill
/// after a resize does: the attributes are drawn as usual and the
/// position is taken as given.
pub fn sample_star_at(rng: &mut Rng, x: i64, y: i64) -> (s: Star)
    ensures
        s.x == x,
        s.y == y,
        star_attrs_wf(s),
{
    let radius = sample_radius(rng);
    let base_alpha = sample_base_alpha(rng);
    Star {
        x,
        y,
        radius,
        vx: sample_velocity(rng),
        vy: sample_velocity(rng),
        base_alpha,
        twinkle_phase: sample_phase(rng),
        twinkle_speed: sample_twinkle_speed(rng),
        alpha: base_alpha,
        color: sample_color(rng),
    }
}

/// Picks a random point in the new `nw` by `nh` rectangle.  When the
/// new rectangle extends past the old `ow` by `oh` one, the point falls
/// in the newly exposed region: uniform draws over the new rectangle are
/// retried until one lands outside the old rectangle, with a direct draw
/// from a guaranteed-new strip once the retry budget runs out.
pub fn pick_random_in_diff_area(rng: &mut Rng, ow: i64, oh: i64, nw: i64, nh: i64) -> (p: (
    i64,
    i64,
))
    requires
        0 <= ow <= MAX_DIM,
        0 <= oh <= MAX_DIM,
        0 <= nw <= MAX_DIM,
        0 <= nh <= MAX_DIM,
    ensures
        0 <= p.0 <= nw,
        0 <= p.1 <= nh,
        nw > ow || nh > oh ==> p.0 > ow || p.1 > oh,
{
    if nw <= ow && nh <= oh {
        let x = sample_coord(rng, nw);
        let y = sample_coord(rng, nh);
        return (x, y);
    }
    let mut tries: u32 = 0;
    while tries < 64
        invariant
            0 <= nw <= MAX_DIM,
            0 <= nh <= MAX_DIM,
        decreases 64 - tries,
    {
        let x = sample_coord(rng, nw);
        let y = sample_coord(rng, nh);
        if x > ow || y > oh {
            return (x, y);
        }
        tries = tries + 1;
    }
    // The retry budget ran out: draw directly from a strip that is
    // entirely outside the old rectangle.
    if nw > ow {
        let span = nw - ow;
        let off = sample_coord(rng, span - 1);
        let y = sample_coord(rng, nh);
        (ow + 1 + off, y)
    } else {
        let span = nh - oh;
        let off = sample_coord(rng, span - 1);
        let x = sample_coord(rng, nw);
        (x, oh + 1 + off)
    }
}

} // verus!
