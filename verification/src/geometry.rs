//! The geometry builder: flat vertex streams for the three draw passes.
//!
//! Values are micro-units; the host divides by [`crate::fixed::SCALE`]
//! when it fills its float buffers.  Buffer sizes track the live
//! particle counts exactly: there are never stale entries.

use vstd::prelude::*;

verus! {

use crate::field::StarField;
use crate::fixed::{
    div_trunc, isqrt, lemma_scale_div_le, scale_div, spec_isqrt, SCALE,
};
use crate::particle::{
    Meteor, Star, METEOR_HALF_WIDTH, METEOR_MIN_SPEED, METEOR_TRAIL_LENGTH,
};

/// The background quad: two triangles covering clip space, each vertex
/// as (x, y, r, g, b), bottom vertices in the bottom tint and top
/// vertices in the top tint.
pub open spec fn spec_background_vertices() -> Seq<i64> {
    seq![
        -1_000_000i64, -1_000_000i64, 211_764i64, 270_588i64, 490_196i64,
        1_000_000i64, -1_000_000i64, 211_764i64, 270_588i64, 490_196i64,
        -1_000_000i64, 1_000_000i64, 98_039i64, 176_470i64, 411_764i64,
        1_000_000i64, -1_000_000i64, 211_764i64, 270_588i64, 490_196i64,
        1_000_000i64, 1_000_000i64, 98_039i64, 176_470i64, 411_764i64,
        -1_000_000i64, 1_000_000i64, 98_039i64, 176_470i64, 411_764i64,
    ]
}

/// Builds the static background vertex stream; it is built once and
/// never rebuilt.
pub fn background_vertices() -> (v: Vec<i64>)
    ensures
        v@ == spec_background_vertices(),
{
    let mut v: Vec<i64> = Vec::new();
    v.push(-1_000_000);
    v.push(-1_000_000);
    v.push(211_764);
    v.push(270_588);
    v.push(490_196);
    v.push(1_000_000);
    v.push(-1_000_000);
    v.push(211_764);
    v.push(270_588);
    v.push(490_196);
    v.push(-1_000_000);
    v.push(1_000_000);
    v.push(98_039);
    v.push(176_470);
    v.push(411_764);
    v.push(1_000_000);
    v.push(-1_000_000);
    v.push(211_764);
    v.push(270_588);
    v.push(490_196);
    v.push(1_000_000);
    v.push(1_000_000);
    v.push(98_039);
    v.push(176_470);
    v.push(411_764);
    v.push(-1_000_000);
    v.push(1_000_000);
    v.push(98_039);
    v.push(176_470);
    v.push(411_764);
    proof {
        assert(v@ =~= spec_background_vertices());
    }
    v
}

/// The point size a star is drawn with: one hundred times its radius
/// factor, floored at one pixel.
pub open spec fn spec_point_size(radius: int) -> int {
    if radius * 100 >= SCALE {
        radius * 100
    } else {
        SCALE as int
    }
}

/// One star's vertex record: (x, y, point_size, alpha, r, g, b).
pub open spec fn star_record(s: Star) -> Seq<i64> {
    seq![
        s.x,
        s.y,
        spec_point_size(s.radius as int) as i64,
        s.alpha,
        s.color.r,
        s.color.g,
        s.color.b,
    ]
}

/// A meteor's speed: the length of its velocity, in micro-units.
pub open spec fn spec_meteor_speed(m: Meteor) -> int {
    spec_isqrt(m.vx * m.vx + m.vy * m.vy)
}

/// The horizontal part of a meteor's unit direction; a near-standstill
/// meteor points horizontally.
pub open spec fn spec_dir_x(m: Meteor) -> int {
    if spec_meteor_speed(m) > METEOR_MIN_SPEED {
        div_trunc(m.vx * SCALE, spec_meteor_speed(m))
    } else {
        SCALE as int
    }
}

/// The vertical part of a meteor's unit direction.
pub open spec fn spec_dir_y(m: Meteor) -> int {
    if spec_meteor_speed(m) > METEOR_MIN_SPEED {
        div_trunc(m.vy * SCALE, spec_meteor_speed(m))
    } else {
        0
    }
}

/// The horizontal half-width offset, along the perpendicular of the
/// direction.
pub open spec fn spec_off_x(m: Meteor) -> int {
    div_trunc(-spec_dir_y(m) * METEOR_HALF_WIDTH, SCALE as int)
}

/// The vertical half-width offset.
pub open spec fn spec_off_y(m: Meteor) -> int {
    div_trunc(spec_dir_x(m) * METEOR_HALF_WIDTH, SCALE as int)
}

/// The horizontal tail position: the trail length back along the
/// direction.
pub open spec fn spec_tail_x(m: Meteor) -> int {
    m.x - div_trunc(spec_dir_x(m) * METEOR_TRAIL_LENGTH, SCALE as int)
}

/// The vertical tail position.
pub open spec fn spec_tail_y(m: Meteor) -> int {
    m.y - div_trunc(spec_dir_y(m) * METEOR_TRAIL_LENGTH, SCALE as int)
}

/// The head alpha of a meteor's trail: it fades linearly from one at
/// spawn to zero at the end of its lifetime.
pub open spec fn spec_head_alpha(m: Meteor) -> int {
    SCALE - (m.lifetime as int) * 20_000
}

/// One meteor's six vertices — two triangles forming its trail quad —
/// each as (x, y, alpha, r, g, b).  The head edge carries the faded
/// head alpha, the tail edge is fully transparent.
pub open spec fn meteor_quad(m: Meteor) -> Seq<i64> {
    let ha = spec_head_alpha(m) as i64;
    let v0x = (m.x + spec_off_x(m)) as i64;
    let v0y = (m.y + spec_off_y(m)) as i64;
    let v1x = (m.x - spec_off_x(m)) as i64;
    let v1y = (m.y - spec_off_y(m)) as i64;
    let v2x = (spec_tail_x(m) + spec_off_x(m)) as i64;
    let v2y = (spec_tail_y(m) + spec_off_y(m)) as i64;
    let v3x = (spec_tail_x(m) - spec_off_x(m)) as i64;
    let v3y = (spec_tail_y(m) - spec_off_y(m)) as i64;
    seq![
        v0x, v0y, ha, m.color.r, m.color.g, m.color.b,
        v1x, v1y, ha, m.color.r, m.color.g, m.color.b,
        v2x, v2y, 0i64, m.color.r, m.color.g, m.color.b,
        v1x, v1y, ha, m.color.r, m.color.g, m.color.b,
        v2x, v2y, 0i64, m.color.r, m.color.g, m.color.b,
        v3x, v3y, 0i64, m.color.r, m.color.g, m.color.b,
    ]
}

impl StarField {
    /// Builds the star vertex stream: one record of seven values per
    /// star, in the stars' own order, with nothing stale.
    pub fn star_vertices(&self) -> (v: Vec<i64>)
        requires
            self.wf(),
        ensures
            v@.len() == 7 * self.stars@.len(),
            forall|i: int|
                0 <= i < self.stars@.len() ==> v@.subrange(7 * i, 7 * i + 7) == star_record(
                    #[trigger] self.stars@[i],
                ),
    {
        let n = self.stars.len();
        let mut v: Vec<i64> = Vec::new();
        let mut i: usize = 0;
        while i < n
            invariant
                i <= n,
                n == self.stars@.len(),
                self.wf(),
                v@.len() == 7 * i,
                forall|j: int|
                    0 <= j < i ==> v@.subrange(7 * j, 7 * j + 7) == star_record(
                        #[trigger] self.stars@[j],
                    ),
            decreases n - i,
        {
            let s = self.stars[i];
            let ghost before = v@;
            let scaled = s.radius * 100;
            let ps = if scaled >= SCALE {
                scaled
            } else {
                SCALE
            };
            v.push(s.x);
            v.push(s.y);
            v.push(ps);
            v.push(s.alpha);
            v.push(s.color.r);
            v.push(s.color.g);
            v.push(s.color.b);
            proof {
                assert(v@.subrange(0, 7 * i as int) =~= before);
                assert(v@.subrange(7 * i as int, 7 * i as int + 7) =~= star_record(
                    self.stars@[i as int],
                ));
                assert forall|j: int| 0 <= j < i + 1 implies v@.subrange(7 * j, 7 * j + 7)
                    == star_record(#[trigger] self.stars@[j]) by {
                    if j < i {
                        assert(v@.subrange(7 * j, 7 * j + 7) =~= before.subrange(7 * j, 7 * j + 7));
                    }
                }
            }
            i = i + 1;
        }
        v
    }

    /// Builds the meteor vertex stream: six vertices of six values per
    /// live meteor, in the meteors' own order, with nothing stale.
    pub fn meteor_vertices(&self) -> (v: Vec<i64>)
        requires
            self.wf(),
        ensures
            v@.len() == 36 * self.meteors@.len(),
            forall|i: int|
                0 <= i < self.meteors@.len() ==> v@.subrange(36 * i, 36 * i + 36) == meteor_quad(
                    #[trigger] self.meteors@[i],
                ),
    {
        let n = self.meteors.len();
        let mut v: Vec<i64> = Vec::new();
        let mut i: usize = 0;
        while i < n
            invariant
                i <= n,
                n == self.meteors@.len(),
                self.wf(),
                v@.len() == 36 * i,
                forall|j: int|
                    0 <= j < i ==> v@.subrange(36 * j, 36 * j + 36) == meteor_quad(
                        #[trigger] self.meteors@[j],
                    ),
            decreases n - i,
        {
            let m = self.meteors[i];
            let ghost before = v@;
            proof {
                assert(0 <= m.vx * m.vx <= 1_000_000_000_000 && 0 <= m.vy * m.vy
                    <= 1_000_000_000_000) by (nonlinear_arith)
                    requires -1_000_000 <= m.vx <= 1_000_000, -1_000_000 <= m.vy <= 1_000_000;
            }
            let sq: i64 = m.vx * m.vx + m.vy * m.vy;
            let speed64: u64 = isqrt(sq as u64);
            proof {
                assert(speed64 <= 1_414_214) by (nonlinear_arith)
                    requires
                        0 <= speed64,
                        (speed64 as int) * (speed64 as int) <= 2_000_000_000_000,
                ;
            }
            let speed: i64 = speed64 as i64;
            proof {
                assert(-speed <= m.vx <= speed && -speed <= m.vy <= speed) by (nonlinear_arith)
                    requires
                        0 <= speed,
                        (speed as int) * (speed as int) <= m.vx * m.vx + m.vy * m.vy,
                        m.vx * m.vx + m.vy * m.vy < ((speed + 1) as int) * ((speed + 1) as int),
                ;
            }
            let dx: i64;
            let dy: i64;
            if speed > METEOR_MIN_SPEED {
                proof {
                    assert(-((SCALE as int) * (speed as int)) <= m.vx * (SCALE as int)
                        <= (SCALE as int) * (speed as int)) by (nonlinear_arith)
                        requires -speed <= m.vx <= speed, 0 < speed;
                    lemma_scale_div_le(m.vx as int, SCALE as int, speed as int, SCALE as int);
                    assert(-((SCALE as int) * (speed as int)) <= m.vy * (SCALE as int)
                        <= (SCALE as int) * (speed as int)) by (nonlinear_arith)
                        requires -speed <= m.vy <= speed, 0 < speed;
                    lemma_scale_div_le(m.vy as int, SCALE as int, speed as int, SCALE as int);
                }
                dx = scale_div(m.vx, SCALE, speed);
                dy = scale_div(m.vy, SCALE, speed);
            } else {
                dx = SCALE;
                dy = 0;
            }
            proof {
                assert(-(METEOR_HALF_WIDTH * (SCALE as int)) <= (-dy) * METEOR_HALF_WIDTH
                    <= METEOR_HALF_WIDTH * (SCALE as int)) by (nonlinear_arith)
                    requires -SCALE <= dy <= SCALE;
                lemma_scale_div_le(-dy as int, METEOR_HALF_WIDTH as int, SCALE as int,
                    METEOR_HALF_WIDTH as int);
                assert(-(METEOR_HALF_WIDTH * (SCALE as int)) <= dx * METEOR_HALF_WIDTH
                    <= METEOR_HALF_WIDTH * (SCALE as int)) by (nonlinear_arith)
                    requires -SCALE <= dx <= SCALE;
                lemma_scale_div_le(dx as int, METEOR_HALF_WIDTH as int, SCALE as int,
                    METEOR_HALF_WIDTH as int);
                assert(-(METEOR_TRAIL_LENGTH * (SCALE as int)) <= dx * METEOR_TRAIL_LENGTH
                    <= METEOR_TRAIL_LENGTH * (SCALE as int)) by (nonlinear_arith)
                    requires -SCALE <= dx <= SCALE;
                lemma_scale_div_le(dx as int, METEOR_TRAIL_LENGTH as int, SCALE as int,
                    METEOR_TRAIL_LENGTH as int);
                assert(-(METEOR_TRAIL_LENGTH * (SCALE as int)) <= dy * METEOR_TRAIL_LENGTH
                    <= METEOR_TRAIL_LENGTH * (SCALE as int)) by (nonlinear_arith)
                    requires -SCALE <= dy <= SCALE;
                lemma_scale_div_le(dy as int, METEOR_TRAIL_LENGTH as int, SCALE as int,
                    METEOR_TRAIL_LENGTH as int);
            }
            let offx = scale_div(-dy, METEOR_HALF_WIDTH, SCALE);
            let offy = scale_div(dx, METEOR_HALF_WIDTH, SCALE);
            let tx = m.x - scale_div(dx, METEOR_TRAIL_LENGTH, SCALE);
            let ty = m.y - scale_div(dy, METEOR_TRAIL_LENGTH, SCALE);
            let ha = SCALE - (m.lifetime as i64) * 20_000;
            v.push(m.x + offx);
            v.push(m.y + offy);
            v.push(ha);
            v.push(m.color.r);
            v.push(m.color.g);
            v.push(m.color.b);
            v.push(m.x - offx);
            v.push(m.y - offy);
            v.push(ha);
            v.push(m.color.r);
            v.push(m.color.g);
            v.push(m.color.b);
            v.push(tx + offx);
            v.push(ty + offy);
            v.push(0);
            v.push(m.color.r);
            v.push(m.color.g);
            v.push(m.color.b);
            v.push(m.x - offx);
            v.push(m.y - offy);
            v.push(ha);
            v.push(m.color.r);
            v.push(m.color.g);
            v.push(m.color.b);
            v.push(tx + offx);
            v.push(ty + offy);
            v.push(0);
            v.push(m.color.r);
            v.push(m.color.g);
            v.push(m.color.b);
            v.push(tx - offx);
            v.push(ty - offy);
            v.push(0);
            v.push(m.color.r);
            v.push(m.color.g);
            v.push(m.color.b);
            proof {
                assert(v@.subrange(0, 36 * i as int) =~= before);
                assert(v@.subrange(36 * i as int, 36 * i as int + 36) =~= meteor_quad(
                    self.meteors@[i as int],
                ));
                assert forall|j: int| 0 <= j < i + 1 implies v@.subrange(36 * j, 36 * j + 36)
                    == meteor_quad(#[trigger] self.meteors@[j]) by {
                    if j < i {
                        assert(v@.subrange(36 * j, 36 * j + 36) =~= before.subrange(
                            36 * j,
                            36 * j + 36,
                        ));
                    }
                }
            }
            i = i + 1;
        }
        v
    }
}

} // verus!
