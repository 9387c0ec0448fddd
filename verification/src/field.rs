//! The particle state: the star field, its per-frame update, and the
//! viewport resize with density-preserving backfill.

use vstd::prelude::*;

verus! {

use crate::particle::{
    is_spawned_meteor, lemma_filter_all, lemma_filter_push, lemma_step_meteors_push, meteor_alive,
    meteor_color, meteor_wf, spec_advance_meteor, spec_step_meteors, star_bounded, star_stepped,
    star_wf, step_star, Meteor, Star, MAX_DIM, METEOR_MAX_LIFETIME, METEOR_VEL,
};
use crate::rng::Rng;
use crate::sample::{pick_random_in_diff_area, sample_coord, sample_star, sample_star_at};

/// More stars than this cannot take part in a resize; the bound keeps
/// the backfill count well inside the machine's integer range.
pub const MAX_STAR_COUNT: usize = 0x4000_0000;

/// Whether a star sits inside the `w` by `h` surface.
pub open spec fn star_in_bounds(s: Star, w: int, h: int) -> bool {
    0 <= s.x <= w && 0 <= s.y <= h
}

/// The stars that survive a resize to a `w` by `h` surface: those still
/// on the surface, in their original order.
pub open spec fn spec_cull(stars: Seq<Star>, w: int, h: int) -> Seq<Star> {
    stars.filter(|s: Star| star_in_bounds(s, w, h))
}

/// Ceiling division for a nonnegative numerator and positive denominator.
pub open spec fn spec_ceil_div(p: int, q: int) -> int {
    (p + q - 1) / q
}

/// How many stars a grow-resize adds: the old density (stars per unit
/// of old area) times the newly exposed area, rounded up.  A resize that
/// does not grow the area adds none.
pub open spec fn spec_backfill(n: int, old_area: int, new_area: int) -> int {
    if new_area > old_area {
        spec_ceil_div(n * (new_area - old_area), if old_area < 1 { 1 } else { old_area })
    } else {
        0
    }
}

/// The area of a `w` by `h` surface, in square micro-pixels.
pub open spec fn spec_area(w: int, h: int) -> int {
    w * h
}

/// Bounds of ceiling division: `ceil(p / q) * q` lands within
/// `[p, p + q - 1]`.
pub proof fn lemma_ceil_div_bounds(p: int, q: int)
    requires
        0 <= p,
        1 <= q,
    ensures
        0 <= spec_ceil_div(p, q),
        p <= spec_ceil_div(p, q) * q,
        spec_ceil_div(p, q) * q <= p + q - 1,
{
    let c = spec_ceil_div(p, q);
    vstd::arithmetic::div_mod::lemma_fundamental_div_mod(p + q - 1, q);
    vstd::arithmetic::div_mod::lemma_mod_bound(p + q - 1, q);
    vstd::arithmetic::div_mod::lemma_div_pos_is_pos(p + q - 1, q);
    assert(c * q == q * c) by (nonlinear_arith);
}

/// The backfill count is monotone in the star count, and nonnegative.
pub proof fn lemma_backfill_mono(n1: int, n2: int, old_area: int, new_area: int)
    requires
        0 <= n1 <= n2,
    ensures
        0 <= spec_backfill(n1, old_area, new_area) <= spec_backfill(n2, old_area, new_area),
{
    if new_area > old_area {
        let q = if old_area < 1 {
            1int
        } else {
            old_area
        };
        let d = new_area - old_area;
        assert(0 <= n1 * d <= n2 * d) by (nonlinear_arith)
            requires 0 <= n1 <= n2, 0 < d;
        vstd::arithmetic::div_mod::lemma_div_is_ordered(n1 * d + q - 1, n2 * d + q - 1, q);
        vstd::arithmetic::div_mod::lemma_div_pos_is_pos(n1 * d + q - 1, q);
    }
}

/// A surface whose area grew must have grown along some axis.
pub proof fn lemma_area_growth(ow: int, oh: int, nw: int, nh: int)
    by (nonlinear_arith)
    requires
        0 <= ow,
        0 <= oh,
        0 <= nw,
        0 <= nh,
        ow * oh < nw * nh,
    ensures
        nw > ow || nh > oh,
{
}

/// The whole simulation state: the star and meteor collections, the
/// surface resolution in micro-pixels, and the field's own random
/// source.
pub struct StarField {
    /// The twinkling stars.
    pub stars: Vec<Star>,
    /// The live meteors.
    pub meteors: Vec<Meteor>,
    /// Surface width in micro-pixels.
    pub width: i64,
    /// Surface height in micro-pixels.
    pub height: i64,
    /// The field's random source.
    pub rng: Rng,
}

impl StarField {
    /// The field invariant: the resolution is within range, every star
    /// is within the coordinate range with well-formed attributes, and
    /// every meteor is alive and well-formed.
    pub open spec fn wf(self) -> bool {
        &&& 0 <= self.width <= MAX_DIM
        &&& 0 <= self.height <= MAX_DIM
        &&& forall|i: int| 0 <= i < self.stars@.len() ==> star_bounded(#[trigger] self.stars@[i])
        &&& forall|i: int| 0 <= i < self.meteors@.len() ==> meteor_wf(#[trigger] self.meteors@[i])
    }

    /// Whether every star sits on the current surface.  Holds after
    /// construction and after every update; a resize from a degenerate
    /// surface is the one step that may leave it false for a frame.
    pub open spec fn stars_on_surface(self) -> bool {
        forall|i: int|
            0 <= i < self.stars@.len() ==> star_in_bounds(
                #[trigger] self.stars@[i],
                self.width as int,
                self.height as int,
            )
    }

    /// Builds a field of `num_stars` freshly sampled stars on a `width`
    /// by `height` surface, with no meteors yet.
    pub fn new(width: i64, height: i64, num_stars: usize, seed: u64) -> (field: StarField)
        requires
            0 <= width <= MAX_DIM,
            0 <= height <= MAX_DIM,
        ensures
            field.wf(),
            field.stars_on_surface(),
            field.stars@.len() == num_stars,
            field.meteors@.len() == 0,
            field.width == width,
            field.height == height,
    {
        let mut rng = Rng::new(seed);
        let mut stars: Vec<Star> = Vec::new();
        Self::init_stars(&mut stars, &mut rng, num_stars, width, height);
        StarField { stars, meteors: Vec::new(), width, height, rng }
    }

    /// Appends `num_stars` freshly sampled stars for a `width` by
    /// `height` surface, leaving what was already there untouched.
    pub fn init_stars(
        stars: &mut Vec<Star>,
        rng: &mut Rng,
        num_stars: usize,
        width: i64,
        height: i64,
    )
        requires
            0 <= width <= MAX_DIM,
            0 <= height <= MAX_DIM,
        ensures
            final(stars)@.len() == old(stars)@.len() + num_stars,
            forall|i: int| 0 <= i < old(stars)@.len() ==> final(stars)@[i] == old(stars)@[i],
            forall|i: int|
                old(stars)@.len() <= i < final(stars)@.len() ==> star_wf(
                    #[trigger] final(stars)@[i],
                    width as int,
                    height as int,
                ),
    {
        let mut k: usize = 0;
        while k < num_stars
            invariant
                k <= num_stars,
                0 <= width <= MAX_DIM,
                0 <= height <= MAX_DIM,
                stars@.len() == old(stars)@.len() + k,
                forall|i: int| 0 <= i < old(stars)@.len() ==> stars@[i] == old(stars)@[i],
                forall|i: int|
                    old(stars)@.len() <= i < stars@.len() ==> star_wf(
                        #[trigger] stars@[i],
                        width as int,
                        height as int,
                    ),
            decreases num_stars - k,
        {
            let s = sample_star(rng, width, height);
            stars.push(s);
            k = k + 1;
        }
    }

    /// Adds one meteor at the given on-surface position, heading
    /// down-right at unit speed with a fresh lifetime.  Everything else
    /// is left untouched.
    pub fn spawn_meteor(&mut self, x: i64, y: i64)
        requires
            old(self).wf(),
            0 <= x <= old(self).width,
            0 <= y <= old(self).height,
        ensures
            final(self).wf(),
            final(self).meteors@ == old(self).meteors@.push(
                (Meteor {
                    x,
                    y,
                    vx: METEOR_VEL,
                    vy: METEOR_VEL,
                    lifetime: 0,
                    max_lifetime: METEOR_MAX_LIFETIME,
                    point_size: 0,
                    color: crate::particle::spec_meteor_color(),
                }),
            ),
            final(self).stars == old(self).stars,
            final(self).width == old(self).width,
            final(self).height == old(self).height,
            final(self).rng == old(self).rng,
    {
        let m = Meteor {
            x,
            y,
            vx: METEOR_VEL,
            vy: METEOR_VEL,
            lifetime: 0,
            max_lifetime: METEOR_MAX_LIFETIME,
            point_size: 0,
            color: meteor_color(),
        };
        self.meteors.push(m);
    }

    /// One frame of the simulation, with an implicit unit time step.
    ///
    /// Every star drifts by its velocity, wraps toroidally at the
    /// surface edges, has its velocity damped and its twinkle advanced;
    /// its alpha always lands back in `[0, SCALE]`.  With a small fixed
    /// probability one fresh meteor spawns.  Every meteor then advances
    /// and ages by one frame, and the expired ones are removed: no
    /// meteor at or past its lifetime ever survives an update.
    pub fn update(&mut self)
        requires
            old(self).wf(),
        ensures
            final(self).wf(),
            final(self).width == old(self).width,
            final(self).height == old(self).height,
            final(self).stars@.len() == old(self).stars@.len(),
            forall|i: int|
                0 <= i < old(self).stars@.len() ==> star_stepped(
                    old(self).stars@[i],
                    #[trigger] final(self).stars@[i],
                    old(self).width as int,
                    old(self).height as int,
                ),
            final(self).meteors@ == spec_step_meteors(old(self).meteors@) || (exists|m: Meteor|
                is_spawned_meteor(m, old(self).width as int, old(self).height as int)
                    && final(self).meteors@ == spec_step_meteors(old(self).meteors@.push(m))),
            forall|i: int|
                0 <= i < final(self).meteors@.len() ==> meteor_alive(
                    #[trigger] final(self).meteors@[i],
                ),
            final(self).stars_on_surface(),
    {
        let w = self.width;
        let h = self.height;
        // Stars: drift, wrap, damp, twinkle.
        let star_count = self.stars.len();
        let mut new_stars: Vec<Star> = Vec::new();
        let mut i: usize = 0;
        while i < star_count
            invariant
                i <= star_count,
                star_count == self.stars@.len(),
                self == old(self),
                old(self).wf(),
                w == self.width,
                h == self.height,
                new_stars@.len() == i,
                forall|k: int|
                    0 <= k < i ==> star_stepped(
                        self.stars@[k],
                        #[trigger] new_stars@[k],
                        w as int,
                        h as int,
                    ),
                forall|k: int|
                    0 <= k < i ==> star_wf(#[trigger] new_stars@[k], w as int, h as int),
            decreases star_count - i,
        {
            let s = self.stars[i];
            let n = step_star(s, w, h);
            new_stars.push(n);
            i = i + 1;
        }
        self.stars = new_stars;
        // Meteors: an occasional spawn, then advance and retire.
        let roll = self.rng.next_unit();
        let ghost meteors_before = self.meteors@;
        let ghost mut spawned: Meteor = (Meteor {
            x: 0,
            y: 0,
            vx: 0,
            vy: 0,
            lifetime: 0,
            max_lifetime: 0,
            point_size: 0,
            color: crate::particle::spec_meteor_color(),
        });
        let did_spawn = roll < 1_000;
        if did_spawn {
            let x = sample_coord(&mut self.rng, w);
            let y = sample_coord(&mut self.rng, h);
            let m = Meteor {
                x,
                y,
                vx: METEOR_VEL,
                vy: METEOR_VEL,
                lifetime: 0,
                max_lifetime: METEOR_MAX_LIFETIME,
                point_size: 0,
                color: meteor_color(),
            };
            proof {
                spawned = m;
            }
            self.meteors.push(m);
        }
        let ghost pre = self.meteors@;
        let meteor_count = self.meteors.len();
        let mut live: Vec<Meteor> = Vec::new();
        let mut j: usize = 0;
        while j < meteor_count
            invariant
                j <= meteor_count,
                meteor_count == self.meteors@.len(),
                pre == self.meteors@,
                forall|k: int| 0 <= k < pre.len() ==> meteor_wf(#[trigger] pre[k]),
                live@ == spec_step_meteors(pre.subrange(0, j as int)),
                forall|k: int| 0 <= k < live@.len() ==> meteor_wf(#[trigger] live@[k]),
            decreases meteor_count - j,
        {
            let m = self.meteors[j];
            let adv = Meteor {
                x: m.x + m.vx,
                y: m.y + m.vy,
                lifetime: m.lifetime + 1,
                ..m
            };
            proof {
                assert(adv == spec_advance_meteor(m));
                assert(pre.subrange(0, (j + 1) as int) =~= pre.subrange(0, j as int).push(m));
                lemma_step_meteors_push(pre.subrange(0, j as int), m);
            }
            if adv.lifetime < adv.max_lifetime {
                live.push(adv);
            }
            j = j + 1;
        }
        proof {
            assert(pre.subrange(0, meteor_count as int) =~= pre);
        }
        self.meteors = live;
        proof {
            if did_spawn {
                assert(is_spawned_meteor(spawned, w as int, h as int));
                assert(pre == meteors_before.push(spawned));
                assert(self.meteors@ == spec_step_meteors(meteors_before.push(spawned)));
            } else {
                assert(self.meteors@ == spec_step_meteors(meteors_before));
            }
        }
    }

    /// Applies a viewport resize to `new_width` by `new_height`.
    ///
    /// When the previous size was degenerate (a zero dimension), only
    /// the resolution changes.  Otherwise the stars now outside the new
    /// surface are removed and, when the area grew, the old density
    /// times the newly exposed area — rounded up — many fresh stars are
    /// sampled into the newly exposed region.  Growing the surface never
    /// loses stars, a resize that does not grow the area never adds any,
    /// and after a grow the density is preserved up to the rounding of
    /// one star.
    pub fn resize(&mut self, new_width: i64, new_height: i64)
        requires
            old(self).wf(),
            0 <= new_width <= MAX_DIM,
            0 <= new_height <= MAX_DIM,
            old(self).stars@.len() <= MAX_STAR_COUNT,
            old(self).stars@.len() + spec_backfill(
                old(self).stars@.len() as int,
                spec_area(old(self).width as int, old(self).height as int),
                spec_area(new_width as int, new_height as int),
            ) <= usize::MAX,
        ensures
            final(self).wf(),
            final(self).width == new_width,
            final(self).height == new_height,
            final(self).meteors@ == old(self).meteors@,
            (old(self).width <= 0 || old(self).height <= 0) ==> final(self).stars@ == old(self).stars@,
            (old(self).width > 0 && old(self).height > 0) ==> final(self).stars_on_surface(),
            // the culled stars survive in order, as a prefix
            (old(self).width > 0 && old(self).height > 0) ==> final(self).stars@.subrange(
                0,
                spec_cull(old(self).stars@, new_width as int, new_height as int).len() as int,
            ) == spec_cull(old(self).stars@, new_width as int, new_height as int),
            // a grow-resize backfills by the ceiling of density times exposed area
            (old(self).width > 0 && old(self).height > 0 && spec_area(
                new_width as int,
                new_height as int,
            ) > spec_area(old(self).width as int, old(self).height as int)) ==> final(self).stars@.len() == spec_cull(
                old(self).stars@,
                new_width as int,
                new_height as int,
            ).len() + spec_backfill(
                spec_cull(old(self).stars@, new_width as int, new_height as int).len() as int,
                spec_area(old(self).width as int, old(self).height as int),
                spec_area(new_width as int, new_height as int),
            ),
            // without area growth, the culled stars are all there is
            (old(self).width > 0 && old(self).height > 0 && spec_area(
                new_width as int,
                new_height as int,
            ) <= spec_area(old(self).width as int, old(self).height as int)) ==> final(self).stars@ == spec_cull(old(self).stars@, new_width as int, new_height as int),
            // backfilled stars are well-formed and land in the newly exposed region
            (old(self).width > 0 && old(self).height > 0) ==> forall|i: int|
                spec_cull(old(self).stars@, new_width as int, new_height as int).len() <= i
                    < final(self).stars@.len() ==> star_wf(
                    #[trigger] final(self).stars@[i],
                    new_width as int,
                    new_height as int,
                ) && (final(self).stars@[i].x > old(self).width || final(self).stars@[i].y > old(self).height),
            // growing the surface never decreases the star count
            (old(self).stars_on_surface() && new_width >= old(self).width && new_height >= old(self).height) ==> final(self).stars@.len() >= old(self).stars@.len(),
            // a resize that does not grow the area never increases the count
            spec_area(new_width as int, new_height as int) <= spec_area(
                old(self).width as int,
                old(self).height as int,
            ) ==> final(self).stars@.len() <= old(self).stars@.len(),
            // a grow-resize preserves density up to the rounding of one star
            (old(self).stars_on_surface() && old(self).width > 0 && old(self).height > 0
                && new_width >= old(self).width && new_height >= old(self).height && spec_area(
                new_width as int,
                new_height as int,
            ) > spec_area(old(self).width as int, old(self).height as int)) ==> 0 <= final(self).stars@.len() * spec_area(old(self).width as int, old(self).height as int) - old(self).stars@.len() * spec_area(new_width as int, new_height as int) < spec_area(
                old(self).width as int,
                old(self).height as int,
            ),
    {
        let ow = self.width;
        let oh = self.height;
        self.width = new_width;
        self.height = new_height;
        if ow <= 0 || oh <= 0 {
            // The previous size was degenerate: no rebalancing.
            return;
        }
        let ghost all = self.stars@;
        let ghost nwi = new_width as int;
        let ghost nhi = new_height as int;
        // Cull the stars that fell off the new surface.
        let n0 = self.stars.len();
        let mut kept: Vec<Star> = Vec::new();
        let mut i: usize = 0;
        while i < n0
            invariant
                i <= n0,
                n0 == self.stars@.len(),
                self.stars@ == all,
                nwi == new_width as int,
                nhi == new_height as int,
                kept@ == all.subrange(0, i as int).filter(
                    |s: Star| star_in_bounds(s, nwi, nhi),
                ),
                forall|k: int| 0 <= k < all.len() ==> star_bounded(#[trigger] all[k]),
                forall|k: int|
                    0 <= k < kept@.len() ==> star_bounded(#[trigger] kept@[k]) && star_in_bounds(
                        kept@[k],
                        nwi,
                        nhi,
                    ),
            decreases n0 - i,
        {
            let s = self.stars[i];
            proof {
                assert(all.subrange(0, (i + 1) as int) =~= all.subrange(0, i as int).push(s));
                lemma_filter_push(
                    all.subrange(0, i as int),
                    s,
                    |s: Star| star_in_bounds(s, nwi, nhi),
                );
            }
            if s.x >= 0 && s.x <= new_width && s.y >= 0 && s.y <= new_height {
                kept.push(s);
            }
            i = i + 1;
        }
        proof {
            assert(all.subrange(0, n0 as int) =~= all);
        }
        let n1 = kept.len();
        self.stars = kept;
        let ghost culled = spec_cull(all, nwi, nhi);
        proof {
            assert(self.stars@ == culled);
            all.lemma_filter_len(|s: Star| star_in_bounds(s, nwi, nhi));
            assert(1 <= (ow as int) * (oh as int) <= 0x40_0000_0000_0000_0000 && 0 <= (nwi
                * nhi) <= 0x40_0000_0000_0000_0000) by (nonlinear_arith)
                requires
                    0 < ow <= 34_359_738_368,
                    0 < oh <= 34_359_738_368,
                    0 <= nwi <= 34_359_738_368,
                    0 <= nhi <= 34_359_738_368,
            ;
        }
        let oa: i128 = (ow as i128) * (oh as i128);
        let na: i128 = (new_width as i128) * (new_height as i128);
        if na > oa {
            let delta: i128 = na - oa;
            proof {
                assert(0 <= (n1 as int) * ((na - oa) as int) <= 0x2_0000_0000
                    * 0x80_0000_0000_0000_0000) by (nonlinear_arith)
                    requires
                        0 <= n1 <= 0x2_0000_0000,
                        0 < (na - oa) as int <= 0x80_0000_0000_0000_0000,
                ;
            }
            let num: i128 = (n1 as i128) * delta + (oa - 1);
            let add_wide: i128 = num / oa;
            proof {
                assert(add_wide == spec_backfill(n1 as int, oa as int, na as int));
                lemma_backfill_mono(n1 as int, n0 as int, oa as int, na as int);
                lemma_area_growth(ow as int, oh as int, nwi, nhi);
            }
            let add = add_wide as usize;
            let ghost base = culled.len();
            let mut k: usize = 0;
            while k < add
                invariant
                    k <= add,
                    self.stars@.len() == base + k,
                    base == culled.len(),
                    self.stars@.subrange(0, base as int) == culled,
                    forall|j: int|
                        base <= j < self.stars@.len() ==> star_wf(
                            #[trigger] self.stars@[j],
                            nwi,
                            nhi,
                        ) && (self.stars@[j].x > ow || self.stars@[j].y > oh),
                    forall|j: int|
                        0 <= j < base ==> star_in_bounds(#[trigger] self.stars@[j], nwi, nhi)
                            && star_bounded(self.stars@[j]),
                    0 <= new_width <= MAX_DIM,
                    0 <= new_height <= MAX_DIM,
                    0 < ow <= MAX_DIM,
                    0 < oh <= MAX_DIM,
                    nwi == new_width as int,
                    nhi == new_height as int,
                    new_width > ow || new_height > oh,
                    self.width == new_width,
                    self.height == new_height,
                    self.meteors@ == old(self).meteors@,
                    forall|j: int|
                        0 <= j < self.meteors@.len() ==> meteor_wf(#[trigger] self.meteors@[j]),
                decreases add - k,
            {
                let picked = pick_random_in_diff_area(&mut self.rng, ow, oh, new_width, new_height);
                let s = sample_star_at(&mut self.rng, picked.0, picked.1);
                let ghost before_push = self.stars@;
                self.stars.push(s);
                proof {
                    assert(self.stars@.subrange(0, base as int) =~= before_push.subrange(
                        0,
                        base as int,
                    ));
                }
                k = k + 1;
            }
        }
        proof {
            let ghost oai = (ow as int) * (oh as int);
            let ghost nai = nwi * nhi;
            if old(self).stars_on_surface() && new_width >= ow && new_height >= oh {
                assert forall|j: int| 0 <= j < all.len() implies star_in_bounds(
                    #[trigger] all[j],
                    nwi,
                    nhi,
                ) by {
                    assert(star_in_bounds(all[j], ow as int, oh as int));
                }
                lemma_filter_all(all, |s: Star| star_in_bounds(s, nwi, nhi));
                assert(culled == all);
                if nai > oai {
                    // density preservation, up to the ceiling's rounding
                    let n = all.len() as int;
                    let d = nai - oai;
                    let c = spec_ceil_div(n * d, oai);
                    lemma_ceil_div_bounds(n * d, oai);
                    assert((n + c) * oai - n * nai == c * oai - n * d) by (nonlinear_arith)
                        requires nai == oai + d;
                    assert(spec_backfill(n, oai, nai) == c);
                }
            }
        }
    }
}

} // verus!
