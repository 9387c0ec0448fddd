//! The vertex streams handed to the renderer.

use starfield::field::StarField;
use starfield::geometry::background_vertices;
use starfield::particle::{meteor_color, white_color, Meteor, Star, METEOR_VEL};
use starfield::rng::Rng;

#[test]
fn background_is_two_triangles_with_the_gradient_tints() {
    let v = background_vertices();
    let expected: Vec<i64> = vec![
        -1_000_000, -1_000_000, 211_764, 270_588, 490_196,
        1_000_000, -1_000_000, 211_764, 270_588, 490_196,
        -1_000_000, 1_000_000, 98_039, 176_470, 411_764,
        1_000_000, -1_000_000, 211_764, 270_588, 490_196,
        1_000_000, 1_000_000, 98_039, 176_470, 411_764,
        -1_000_000, 1_000_000, 98_039, 176_470, 411_764,
    ];
    assert_eq!(v, expected);
}

#[test]
fn one_star_emits_exactly_one_seven_value_record() {
    // a star at (10, 10) with radius 0.01, alpha 0.5 and a white tint:
    // the point size 0.01 * 100 == 1.0 is exactly at the one-pixel floor
    let star = Star {
        x: 10_000_000,
        y: 10_000_000,
        radius: 10_000,
        vx: 0,
        vy: 0,
        base_alpha: 500_000,
        twinkle_phase: 0,
        twinkle_speed: 2_000,
        alpha: 500_000,
        color: white_color(),
    };
    let f = StarField {
        stars: vec![star],
        meteors: Vec::new(),
        width: 100_000_000,
        height: 100_000_000,
        rng: Rng::new(2),
    };
    let v = f.star_vertices();
    let expected: Vec<i64> = vec![
        10_000_000, 10_000_000, 1_000_000, 500_000, 1_000_000, 1_000_000, 1_000_000,
    ];
    assert_eq!(v, expected);
}

#[test]
fn a_small_star_is_floored_at_one_pixel_and_a_large_one_is_not() {
    let small = Star {
        x: 0,
        y: 0,
        radius: 5_000,
        vx: 0,
        vy: 0,
        base_alpha: 500_000,
        twinkle_phase: 0,
        twinkle_speed: 2_000,
        alpha: 500_000,
        color: white_color(),
    };
    let large = Star { radius: 40_000, ..small };
    let f = StarField {
        stars: vec![small, large],
        meteors: Vec::new(),
        width: 100_000_000,
        height: 100_000_000,
        rng: Rng::new(2),
    };
    let v = f.star_vertices();
    assert_eq!(v.len(), 14);
    // radius 0.005 scales to 0.5, floored at 1.0
    assert_eq!(v[2], 1_000_000);
    // radius 0.04 scales to 4.0
    assert_eq!(v[9], 4_000_000);
}

#[test]
fn a_meteor_emits_its_trail_quad_as_six_vertices() {
    let m = Meteor {
        x: 0,
        y: 0,
        vx: METEOR_VEL,
        vy: METEOR_VEL,
        lifetime: 0,
        max_lifetime: 50,
        point_size: 0,
        color: meteor_color(),
    };
    let f = StarField {
        stars: Vec::new(),
        meteors: vec![m],
        width: 100_000_000,
        height: 100_000_000,
        rng: Rng::new(2),
    };
    let v = f.meteor_vertices();
    assert_eq!(v.len(), 36);
    // speed: sqrt(2) * 707107 in micro-units lands exactly on 1.0, so
    // the unit direction is the velocity itself
    let offx: i64 = -(METEOR_VEL / 4);
    let offy: i64 = METEOR_VEL / 4;
    let tail: i64 = -(METEOR_VEL * 300);
    let expected: Vec<i64> = vec![
        offx, offy, 1_000_000, 1_000_000, 1_000_000, 800_000,
        -offx, -offy, 1_000_000, 1_000_000, 1_000_000, 800_000,
        tail + offx, tail + offy, 0, 1_000_000, 1_000_000, 800_000,
        -offx, -offy, 1_000_000, 1_000_000, 1_000_000, 800_000,
        tail + offx, tail + offy, 0, 1_000_000, 1_000_000, 800_000,
        tail - offx, tail - offy, 0, 1_000_000, 1_000_000, 800_000,
    ];
    assert_eq!(v, expected);
}

#[test]
fn a_faded_meteor_carries_its_faded_head_alpha() {
    let m = Meteor {
        x: 5_000_000,
        y: 6_000_000,
        vx: METEOR_VEL,
        vy: METEOR_VEL,
        lifetime: 40,
        max_lifetime: 50,
        point_size: 0,
        color: meteor_color(),
    };
    let f = StarField {
        stars: Vec::new(),
        meteors: vec![m],
        width: 100_000_000,
        height: 100_000_000,
        rng: Rng::new(2),
    };
    let v = f.meteor_vertices();
    // head alpha == 1 - 40/50 == 0.2; tail alpha == 0
    assert_eq!(v[2], 200_000);
    assert_eq!(v[8], 200_000);
    assert_eq!(v[14], 0);
    assert_eq!(v[20], 200_000);
    assert_eq!(v[26], 0);
    assert_eq!(v[32], 0);
}

#[test]
fn a_standstill_meteor_defaults_to_a_horizontal_trail() {
    let m = Meteor {
        x: 1_000_000,
        y: 2_000_000,
        vx: 0,
        vy: 0,
        lifetime: 10,
        max_lifetime: 50,
        point_size: 0,
        color: meteor_color(),
    };
    let f = StarField {
        stars: Vec::new(),
        meteors: vec![m],
        width: 100_000_000,
        height: 100_000_000,
        rng: Rng::new(2),
    };
    let v = f.meteor_vertices();
    // the direction defaults to (1, 0): the perpendicular offset is
    // vertical and the tail reaches 300 pixels to the left
    assert_eq!(v[0], 1_000_000);
    assert_eq!(v[1], 2_000_000 + 250_000);
    assert_eq!(v[6], 1_000_000);
    assert_eq!(v[7], 2_000_000 - 250_000);
    assert_eq!(v[12], 1_000_000 - 300_000_000);
    assert_eq!(v[13], 2_000_000 + 250_000);
}

#[test]
fn buffer_sizes_track_live_particle_counts() {
    let mut f = StarField::new(100_000_000, 100_000_000, 17, 3);
    f.spawn_meteor(1_000_000, 1_000_000);
    f.spawn_meteor(2_000_000, 3_000_000);
    assert_eq!(f.star_vertices().len(), 17 * 7);
    assert_eq!(f.meteor_vertices().len(), 2 * 36);
    f.update();
    assert_eq!(f.star_vertices().len(), 17 * 7);
    assert_eq!(f.meteor_vertices().len(), 36 * f.meteors.len());
}
