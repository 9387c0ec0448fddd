//! The per-frame update: star physics, meteor lifecycle, and the
//! random source behind them.

use starfield::field::StarField;
use starfield::fixed::{scale_div, sin_fx, SCALE};
use starfield::particle::{white_color, Color, Meteor, Star, METEOR_VEL};
use starfield::rng::Rng;

fn star_at(x: i64, y: i64, vx: i64, vy: i64) -> Star {
    Star {
        x,
        y,
        radius: 10_000,
        vx,
        vy,
        base_alpha: 500_000,
        twinkle_phase: 0,
        twinkle_speed: 2_000,
        alpha: 500_000,
        color: white_color(),
    }
}

fn field_with_stars(stars: Vec<Star>, width: i64, height: i64) -> StarField {
    StarField { stars, meteors: Vec::new(), width, height, rng: Rng::new(11) }
}

#[test]
fn rng_draws_are_in_range_and_reproducible() {
    let mut a = Rng::new(42);
    let mut b = Rng::new(42);
    for _ in 0..1000 {
        let x = a.next_unit();
        assert!(0 <= x && x < SCALE);
        assert_eq!(x, b.next_unit());
    }
}

#[test]
fn update_moves_and_damps_a_star_exactly() {
    // 100 by 100 pixels, in micro-units
    let mut f = field_with_stars(vec![star_at(10_000_000, 20_000_000, 50_000, -50_000)], 100_000_000, 100_000_000);
    f.update();
    let s = &f.stars[0];
    assert_eq!(s.x, 10_050_000);
    assert_eq!(s.y, 19_950_000);
    // velocity keeps 995/1000 of itself, truncating toward zero
    assert_eq!(s.vx, 49_750);
    assert_eq!(s.vy, -49_750);
    // the twinkle phase advanced by the twinkle speed
    assert_eq!(s.twinkle_phase, 2_000);
    // alpha is the base tier plus 0.3 times the sine of the phase
    let expected_alpha = 500_000 + scale_div(sin_fx(2_000), 3, 10);
    assert_eq!(s.alpha, expected_alpha);
    assert!(0 <= s.alpha && s.alpha <= SCALE);
}

#[test]
fn update_wraps_positions_toroidally() {
    // one star pushed past the right edge, one past the top
    let mut f = field_with_stars(
        vec![star_at(99_999_999, 50_000_000, 50_000, 0), star_at(50_000_000, 10_000, 0, -50_000)],
        100_000_000,
        100_000_000,
    );
    f.update();
    // past the right edge: re-enters at the left edge
    assert_eq!(f.stars[0].x, 0);
    assert_eq!(f.stars[0].y, 50_000_000);
    // past the top edge: re-enters at the bottom edge
    assert_eq!(f.stars[1].x, 50_000_000);
    assert_eq!(f.stars[1].y, 100_000_000);
}

#[test]
fn update_keeps_every_alpha_in_the_unit_interval() {
    let mut f = StarField::new(100_000_000, 100_000_000, 200, 5);
    for _ in 0..300 {
        f.update();
        for s in f.stars.iter() {
            assert!(0 <= s.alpha && s.alpha <= SCALE);
            assert!(0 <= s.x && s.x <= f.width);
            assert!(0 <= s.y && s.y <= f.height);
        }
    }
}

#[test]
fn spawned_meteor_has_the_fixed_velocity_and_tint() {
    let mut f = field_with_stars(Vec::new(), 100_000_000, 100_000_000);
    f.spawn_meteor(30_000_000, 40_000_000);
    assert_eq!(f.meteors.len(), 1);
    let m = &f.meteors[0];
    assert_eq!(m.x, 30_000_000);
    assert_eq!(m.y, 40_000_000);
    assert_eq!(m.vx, METEOR_VEL);
    assert_eq!(m.vy, METEOR_VEL);
    assert_eq!(m.lifetime, 0);
    assert_eq!(m.max_lifetime, 50);
    assert_eq!(m.color, Color { r: 1_000_000, g: 1_000_000, b: 800_000 });
}

#[test]
fn meteor_lives_for_exactly_fifty_frames() {
    let mut f = field_with_stars(Vec::new(), 100_000_000, 100_000_000);
    f.spawn_meteor(10_000_000, 10_000_000);
    // frame 0: present with a fresh lifetime
    assert_eq!(f.meteors[0].lifetime, 0);
    for frame in 1..50u32 {
        f.update();
        // the spawned meteor is the oldest one in the set
        let oldest = f.meteors.iter().map(|m| m.lifetime).max().unwrap();
        assert_eq!(oldest, frame);
    }
    // frame 50: the meteor has been retired
    f.update();
    for m in f.meteors.iter() {
        assert!(m.lifetime < 50);
    }
}

#[test]
fn meteors_advance_along_their_velocity() {
    let mut f = field_with_stars(Vec::new(), 100_000_000, 100_000_000);
    f.spawn_meteor(10_000_000, 10_000_000);
    f.update();
    let m: Vec<&Meteor> = f.meteors.iter().filter(|m| m.lifetime == 1).collect();
    assert_eq!(m.len(), 1);
    assert_eq!(m[0].x, 10_000_000 + METEOR_VEL);
    assert_eq!(m[0].y, 10_000_000 + METEOR_VEL);
}

#[test]
fn no_update_ever_keeps_an_expired_meteor() {
    let mut f = StarField::new(50_000_000, 50_000_000, 10, 23);
    f.spawn_meteor(1_000_000, 1_000_000);
    f.spawn_meteor(2_000_000, 2_000_000);
    for _ in 0..120 {
        f.update();
        for m in f.meteors.iter() {
            assert!(m.lifetime < m.max_lifetime);
        }
    }
}
