//! The particle model: stars, meteors, and their per-frame physics.
//!
//! Positions are device-pixel coordinates in micro-units; velocities are
//! micro-units per frame with an implicit unit time step.

use vstd::prelude::*;

verus! {

use crate::fixed::{
    spec_scale_div, spec_clamp_unit, spec_sin, SCALE, TWO_PI_FX,
};

/// The largest surface dimension the model accepts, in micro-units
/// (about 34 thousand device pixels).
pub const MAX_DIM: i64 = 34_359_738_368;

/// A star's speed never exceeds 0.05 pixels per frame on either axis.
pub const STAR_SPEED_LIMIT: i64 = 50_000;

/// Each frame a velocity keeps `DAMP_NUM / DAMP_DEN` of itself.
pub const DAMP_NUM: i64 = 995;

/// Denominator of the per-frame velocity damping.
pub const DAMP_DEN: i64 = 1_000;

/// The smallest star radius factor (0.005).
pub const RADIUS_MIN: i64 = 5_000;

/// The largest star radius factor (0.04).
pub const RADIUS_MAX: i64 = 40_000;

/// Stars wider than this radius factor (0.035) may be gathered into the
/// bright core box at the surface's center.
pub const CORE_RADIUS: i64 = 35_000;

/// The dim base-brightness tier (0.5).
pub const ALPHA_DIM: i64 = 500_000;

/// The middle base-brightness tier (0.7).
pub const ALPHA_MID: i64 = 700_000;

/// The bright base-brightness tier (0.9).
pub const ALPHA_BRIGHT: i64 = 900_000;

/// The slowest twinkle advance per frame (0.002 radians).
pub const TWINKLE_SPEED_MIN: i64 = 2_000;

/// The fastest twinkle advance per frame (0.005 radians).
pub const TWINKLE_SPEED_MAX: i64 = 5_000;

/// Numerator of the twinkle amplitude 0.3.
pub const TWINKLE_AMP_NUM: i64 = 3;

/// Denominator of the twinkle amplitude 0.3.
pub const TWINKLE_AMP_DEN: i64 = 10;

/// Frames a meteor lives before it is retired.
pub const METEOR_MAX_LIFETIME: u32 = 50;

/// Meteor velocity per axis: speed 1.0 at a 45-degree angle, that is
/// cos(pi/4) in micro-units.
pub const METEOR_VEL: i64 = 707_107;

/// Below this speed (0.0001) a meteor's direction defaults to
/// horizontal instead of being normalized.
pub const METEOR_MIN_SPEED: i64 = 100;

/// How far a meteor's trail reaches behind its head: 300 device pixels,
/// in micro-units.
pub const METEOR_TRAIL_LENGTH: i64 = 300_000_000;

/// Half the width of a meteor's trail quad: 0.25 device pixels, in
/// micro-units.
pub const METEOR_HALF_WIDTH: i64 = 250_000;

/// An RGB color with channels in micro-units within `[0, SCALE]`.
#[derive(Clone, Copy, PartialEq, Eq, Structural, Debug)]
pub struct Color {
    /// Red channel.
    pub r: i64,
    /// Green channel.
    pub g: i64,
    /// Blue channel.
    pub b: i64,
}

/// The warm star tint (1.0, 0.8, 0.5).
pub open spec fn spec_warm_color() -> Color {
    Color { r: 1_000_000, g: 800_000, b: 500_000 }
}

/// The warm star tint as a value.
#[verifier::when_used_as_spec(spec_warm_color)]
pub fn warm_color() -> (c: Color)
    ensures
        c == spec_warm_color(),
{
    Color { r: 1_000_000, g: 800_000, b: 500_000 }
}

/// The cool star tint (0.5, 0.8, 1.0).
pub open spec fn spec_cool_color() -> Color {
    Color { r: 500_000, g: 800_000, b: 1_000_000 }
}

/// The cool star tint as a value.
#[verifier::when_used_as_spec(spec_cool_color)]
pub fn cool_color() -> (c: Color)
    ensures
        c == spec_cool_color(),
{
    Color { r: 500_000, g: 800_000, b: 1_000_000 }
}

/// The white star tint (1.0, 1.0, 1.0).
pub open spec fn spec_white_color() -> Color {
    Color { r: 1_000_000, g: 1_000_000, b: 1_000_000 }
}

/// The white star tint as a value.
#[verifier::when_used_as_spec(spec_white_color)]
pub fn white_color() -> (c: Color)
    ensures
        c == spec_white_color(),
{
    Color { r: 1_000_000, g: 1_000_000, b: 1_000_000 }
}

/// The pale-yellow meteor tint (1.0, 1.0, 0.8).
pub open spec fn spec_meteor_color() -> Color {
    Color { r: 1_000_000, g: 1_000_000, b: 800_000 }
}

/// The pale-yellow meteor tint as a value.
#[verifier::when_used_as_spec(spec_meteor_color)]
pub fn meteor_color() -> (c: Color)
    ensures
        c == spec_meteor_color(),
{
    Color { r: 1_000_000, g: 1_000_000, b: 800_000 }
}

/// Whether `c` is one of the three fixed star tints.
pub open spec fn is_star_color(c: Color) -> bool {
    c == warm_color() || c == cool_color() || c == white_color()
}

/// A twinkling star.
#[derive(Clone, Copy, PartialEq, Eq, Structural, Debug)]
pub struct Star {
    /// Horizontal position in micro-pixels.
    pub x: i64,
    /// Vertical position in micro-pixels.
    pub y: i64,
    /// Normalized size factor in micro-units.
    pub radius: i64,
    /// Horizontal velocity in micro-pixels per frame.
    pub vx: i64,
    /// Vertical velocity in micro-pixels per frame.
    pub vy: i64,
    /// The brightness tier the twinkle oscillates around.
    pub base_alpha: i64,
    /// Twinkle phase in micro-radians, kept within `[0, TWO_PI_FX)`.
    pub twinkle_phase: i64,
    /// Twinkle phase advance per frame in micro-radians.
    pub twinkle_speed: i64,
    /// Current opacity in micro-units, always within `[0, SCALE]`.
    pub alpha: i64,
    /// The star's tint.
    pub color: Color,
}

/// A streaking meteor.
#[derive(Clone, Copy, PartialEq, Eq, Structural, Debug)]
pub struct Meteor {
    /// Horizontal position in micro-pixels.
    pub x: i64,
    /// Vertical position in micro-pixels.
    pub y: i64,
    /// Horizontal velocity in micro-pixels per frame.
    pub vx: i64,
    /// Vertical velocity in micro-pixels per frame.
    pub vy: i64,
    /// Frames elapsed since the meteor spawned.
    pub lifetime: u32,
    /// Frames after which the meteor is retired.
    pub max_lifetime: u32,
    /// Unused placeholder kept for the vertex layout.
    pub point_size: i64,
    /// The meteor's tint.
    pub color: Color,
}

/// Well-formedness of a star's attributes apart from its position:
/// within the speed limit, with tiered brightness, a reduced twinkle
/// phase, and a clamped current alpha.
pub open spec fn star_attrs_wf(s: Star) -> bool {
    &&& -STAR_SPEED_LIMIT <= s.vx <= STAR_SPEED_LIMIT
    &&& -STAR_SPEED_LIMIT <= s.vy <= STAR_SPEED_LIMIT
    &&& RADIUS_MIN <= s.radius <= RADIUS_MAX
    &&& (s.base_alpha == ALPHA_DIM || s.base_alpha == ALPHA_MID || s.base_alpha == ALPHA_BRIGHT)
    &&& 0 <= s.twinkle_phase < TWO_PI_FX
    &&& TWINKLE_SPEED_MIN <= s.twinkle_speed <= TWINKLE_SPEED_MAX
    &&& 0 <= s.alpha <= SCALE
    &&& is_star_color(s.color)
}

/// Well-formedness of a star on a `w` by `h` surface (micro-pixels):
/// on the surface, with well-formed attributes.
pub open spec fn star_wf(s: Star, w: int, h: int) -> bool {
    &&& 0 <= s.x <= w
    &&& 0 <= s.y <= h
    &&& star_attrs_wf(s)
}

/// A star whose position is within the absolute coordinate range, with
/// well-formed attributes.  A resize from a degenerate surface can leave
/// a star beyond the new edges for one frame — the next update wraps it
/// back — so the field invariant only bounds positions absolutely.
pub open spec fn star_bounded(s: Star) -> bool {
    &&& -MAX_DIM <= s.x <= MAX_DIM
    &&& -MAX_DIM <= s.y <= MAX_DIM
    &&& star_attrs_wf(s)
}

/// Well-formedness of a meteor.  A meteor is never kept past its
/// lifetime, moves at most one pixel per frame on each axis, and so has
/// drifted at most `lifetime` pixels from its on-surface spawn point.
pub open spec fn meteor_wf(m: Meteor) -> bool {
    &&& m.max_lifetime == METEOR_MAX_LIFETIME
    &&& m.lifetime < m.max_lifetime
    &&& -SCALE <= m.vx <= SCALE
    &&& -SCALE <= m.vy <= SCALE
    &&& -(m.lifetime as int) * (SCALE as int) <= m.x
        <= MAX_DIM + (m.lifetime as int) * (SCALE as int)
    &&& -(m.lifetime as int) * (SCALE as int) <= m.y
        <= MAX_DIM + (m.lifetime as int) * (SCALE as int)
    &&& m.point_size == 0
    &&& m.color == meteor_color()
}

/// Toroidal wrap: a coordinate past either edge re-enters at the
/// opposite edge.
pub open spec fn spec_wrap(p: int, bound: int) -> int {
    if p > bound {
        0
    } else if p < 0 {
        bound
    } else {
        p
    }
}

/// Per-frame exponential damping of one velocity component.
pub open spec fn spec_damp(v: int) -> int {
    spec_scale_div(v, DAMP_NUM as int, DAMP_DEN as int)
}

/// The twinkle phase after one frame, reduced into `[0, TWO_PI_FX)`.
pub open spec fn spec_step_phase(phase: int, speed: int) -> int {
    if phase + speed >= TWO_PI_FX {
        phase + speed - TWO_PI_FX
    } else {
        phase + speed
    }
}

/// The alpha a star shows at a given phase: the base tier plus
/// 0.3 times the sine of the phase, clamped to `[0, SCALE]`.
pub open spec fn spec_star_alpha(base: int, phase: int) -> int {
    spec_clamp_unit(base + spec_scale_div(spec_sin(phase), TWINKLE_AMP_NUM as int, TWINKLE_AMP_DEN as int))
}

/// Law: whatever the base tier and twinkle phase, the alpha a star
/// shows is always within the unit interval `[0, SCALE]`.
pub proof fn lemma_alpha_in_unit(base: int, phase: int)
    ensures
        0 <= spec_star_alpha(base, phase) <= SCALE,
{
}

/// Law: a wrapped coordinate always lands back on the surface: within
/// `[0, bound]` on the axis it wrapped along.
pub proof fn lemma_wrap_in_bounds(p: int, bound: int)
    requires
        0 <= bound,
    ensures
        0 <= spec_wrap(p, bound) <= bound,
{
}

/// How one frame moves a star on a `w` by `h` surface: drift by the
/// old velocity, wrap at the edges, damp the velocity, advance the
/// twinkle phase and recompute the alpha.  Everything else is kept.
pub open spec fn star_stepped(o: Star, n: Star, w: int, h: int) -> bool {
    &&& n.x == spec_wrap(o.x + o.vx, w)
    &&& n.y == spec_wrap(o.y + o.vy, h)
    &&& n.vx == spec_damp(o.vx as int)
    &&& n.vy == spec_damp(o.vy as int)
    &&& n.radius == o.radius
    &&& n.base_alpha == o.base_alpha
    &&& n.twinkle_phase == spec_step_phase(o.twinkle_phase as int, o.twinkle_speed as int)
    &&& n.twinkle_speed == o.twinkle_speed
    &&& n.alpha == spec_star_alpha(o.base_alpha as int, n.twinkle_phase as int)
    &&& n.color == o.color
}

/// How one frame moves a meteor: drift by the velocity and age by one
/// frame.  Everything else is kept.
pub open spec fn spec_advance_meteor(m: Meteor) -> Meteor {
    Meteor {
        x: (m.x + m.vx) as i64,
        y: (m.y + m.vy) as i64,
        lifetime: (m.lifetime + 1) as u32,
        ..m
    }
}

/// Whether a meteor is still within its lifetime.
pub open spec fn meteor_alive(m: Meteor) -> bool {
    m.lifetime < m.max_lifetime
}

/// What one frame does to the meteor set: every meteor advances, and
/// the expired ones are removed, keeping the order of the rest.
pub open spec fn spec_step_meteors(s: Seq<Meteor>) -> Seq<Meteor> {
    s.map_values(|m: Meteor| spec_advance_meteor(m)).filter(|m: Meteor| meteor_alive(m))
}

/// A meteor as `update` spawns it: somewhere on the surface, heading
/// down-right at unit speed, with a fresh lifetime.
pub open spec fn is_spawned_meteor(m: Meteor, w: int, h: int) -> bool {
    &&& 0 <= m.x <= w
    &&& 0 <= m.y <= h
    &&& m.vx == METEOR_VEL
    &&& m.vy == METEOR_VEL
    &&& m.lifetime == 0
    &&& m.max_lifetime == METEOR_MAX_LIFETIME
    &&& m.point_size == 0
    &&& m.color == spec_meteor_color()
}

/// Filtering a sequence extended by one element keeps the filtered
/// prefix and appends the element exactly when it passes.
pub proof fn lemma_filter_push<A>(s: Seq<A>, x: A, p: spec_fn(A) -> bool)
    ensures
        (s.push(x)).filter(p) == if p(x) {
            s.filter(p).push(x)
        } else {
            s.filter(p)
        },
{
    reveal(Seq::filter);
    let t = s.push(x);
    assert(t.drop_last() =~= s);
    assert(t.last() == x);
}

/// Filtering keeps a sequence whole when every element passes.
pub proof fn lemma_filter_all<A>(s: Seq<A>, p: spec_fn(A) -> bool)
    requires
        forall|i: int| 0 <= i < s.len() ==> p(#[trigger] s[i]),
    ensures
        s.filter(p) == s,
    decreases s.len(),
{
    reveal(Seq::filter);
    if s.len() == 0 {
        assert(s.filter(p) =~= s);
    } else {
        lemma_filter_all(s.drop_last(), p);
        assert(p(s.last()));
        assert(s.filter(p) =~= s.drop_last().push(s.last()));
        assert(s.drop_last().push(s.last()) =~= s);
    }
}

/// One frame's effect on a meteor set extended by one meteor: the new
/// meteor advances with the rest and stays exactly when still alive.
pub proof fn lemma_step_meteors_push(s: Seq<Meteor>, m: Meteor)
    ensures
        spec_step_meteors(s.push(m)) == if meteor_alive(spec_advance_meteor(m)) {
            spec_step_meteors(s).push(spec_advance_meteor(m))
        } else {
            spec_step_meteors(s)
        },
{
    let f = |mm: Meteor| spec_advance_meteor(mm);
    let p = |mm: Meteor| meteor_alive(mm);
    assert(s.push(m).map_values(f) =~= s.map_values(f).push(f(m)));
    lemma_filter_push(s.map_values(f), f(m), p);
}

/// Toroidal wrap of one coordinate.
pub fn wrap_coord(p: i64, bound: i64) -> (r: i64)
    requires
        0 <= bound,
    ensures
        r == spec_wrap(p as int, bound as int),
        0 <= r <= bound,
{
    if p > bound {
        0
    } else if p < 0 {
        bound
    } else {
        p
    }
}

/// Advances one star by one frame on a `w` by `h` surface: drift, wrap,
/// damp, twinkle.  The result is again well-formed; in particular the
/// position stays on the surface and the alpha stays in `[0, SCALE]`.
pub fn step_star(s: Star, w: i64, h: i64) -> (n: Star)
    requires
        star_bounded(s),
        0 <= w <= MAX_DIM,
        0 <= h <= MAX_DIM,
    ensures
        star_stepped(s, n, w as int, h as int),
        star_wf(n, w as int, h as int),
{
    let nx = wrap_coord(s.x + s.vx, w);
    let ny = wrap_coord(s.y + s.vy, h);
    proof {
        assert(-(STAR_SPEED_LIMIT * (DAMP_DEN as int)) <= (s.vx as int) * (DAMP_NUM as int)
            <= STAR_SPEED_LIMIT * (DAMP_DEN as int)) by (nonlinear_arith)
            requires -STAR_SPEED_LIMIT <= s.vx <= STAR_SPEED_LIMIT;
        crate::fixed::lemma_scale_div_le(
            s.vx as int,
            DAMP_NUM as int,
            DAMP_DEN as int,
            STAR_SPEED_LIMIT as int,
        );
        assert(-(STAR_SPEED_LIMIT * (DAMP_DEN as int)) <= (s.vy as int) * (DAMP_NUM as int)
            <= STAR_SPEED_LIMIT * (DAMP_DEN as int)) by (nonlinear_arith)
            requires -STAR_SPEED_LIMIT <= s.vy <= STAR_SPEED_LIMIT;
        crate::fixed::lemma_scale_div_le(
            s.vy as int,
            DAMP_NUM as int,
            DAMP_DEN as int,
            STAR_SPEED_LIMIT as int,
        );
    }
    let nvx = crate::fixed::scale_div(s.vx, DAMP_NUM, DAMP_DEN);
    let nvy = crate::fixed::scale_div(s.vy, DAMP_NUM, DAMP_DEN);
    let moved = s.twinkle_phase + s.twinkle_speed;
    let nphase = if moved >= TWO_PI_FX {
        moved - TWO_PI_FX
    } else {
        moved
    };
    let sine = crate::fixed::sin_fx(nphase);
    proof {
        assert(-(300_000 * (TWINKLE_AMP_DEN as int)) <= (sine as int) * (TWINKLE_AMP_NUM as int)
            <= 300_000 * (TWINKLE_AMP_DEN as int)) by (nonlinear_arith)
            requires -SCALE <= sine <= SCALE;
        crate::fixed::lemma_scale_div_le(
            sine as int,
            TWINKLE_AMP_NUM as int,
            TWINKLE_AMP_DEN as int,
            300_000,
        );
    }
    let swing = crate::fixed::scale_div(sine, TWINKLE_AMP_NUM, TWINKLE_AMP_DEN);
    let nalpha = crate::fixed::clamp_unit(s.base_alpha + swing);
    Star {
        x: nx,
        y: ny,
        radius: s.radius,
        vx: nvx,
        vy: nvy,
        base_alpha: s.base_alpha,
        twinkle_phase: nphase,
        twinkle_speed: s.twinkle_speed,
        alpha: nalpha,
        color: s.color,
    }
}

} // verus!
