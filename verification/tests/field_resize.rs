//! Resizing: culling, density-preserving backfill, and the degenerate
//! first size.

use starfield::field::StarField;
use starfield::particle::{white_color, Star};
use starfield::rng::Rng;

fn star_at(x: i64, y: i64) -> Star {
    Star {
        x,
        y,
        radius: 10_000,
        vx: 0,
        vy: 0,
        base_alpha: 700_000,
        twinkle_phase: 0,
        twinkle_speed: 3_000,
        alpha: 700_000,
        color: white_color(),
    }
}

fn field_with_stars(stars: Vec<Star>, width: i64, height: i64) -> StarField {
    StarField { stars, meteors: Vec::new(), width, height, rng: Rng::new(9) }
}

#[test]
fn empty_field_grow_resize_adds_nothing() {
    // density zero: a grow from 100 by 100 to 200 by 100 adds
    // ceil(0 * exposed) == 0 stars
    let mut f = StarField::new(100_000_000, 100_000_000, 0, 1);
    f.resize(200_000_000, 100_000_000);
    assert_eq!(f.stars.len(), 0);
    assert_eq!(f.width, 200_000_000);
    assert_eq!(f.height, 100_000_000);
}

#[test]
fn doubling_the_area_doubles_the_star_count() {
    let stars = vec![
        star_at(10_000_000, 10_000_000),
        star_at(20_000_000, 30_000_000),
        star_at(90_000_000, 90_000_000),
        star_at(50_000_000, 70_000_000),
    ];
    let mut f = field_with_stars(stars, 100_000_000, 100_000_000);
    f.resize(200_000_000, 100_000_000);
    // old density 4 per area, exposed area equals the old area:
    // ceil(4) == 4 more stars
    assert_eq!(f.stars.len(), 8);
    // the four old stars survive in place, in order
    assert_eq!(f.stars[0].x, 10_000_000);
    assert_eq!(f.stars[3].y, 70_000_000);
    // backfill lands in the newly exposed strip and on the new surface
    for s in f.stars.iter().skip(4) {
        assert!(s.x > 100_000_000 || s.y > 100_000_000);
        assert!(0 <= s.x && s.x <= 200_000_000);
        assert!(0 <= s.y && s.y <= 100_000_000);
    }
}

#[test]
fn growing_never_loses_stars_and_density_is_kept() {
    let stars = vec![star_at(10_000_000, 10_000_000), star_at(90_000_000, 90_000_000)];
    let mut f = field_with_stars(stars, 100_000_000, 100_000_000);
    f.resize(110_000_000, 110_000_000);
    // ceil(2 * (1.21 - 1.0) / 1.0) == 1 more star
    assert_eq!(f.stars.len(), 3);
    // density difference, scaled by both areas, is below the rounding
    // of a single star over the old area
    let old_area: i128 = 100_000_000i128 * 100_000_000;
    let new_area: i128 = 110_000_000i128 * 110_000_000;
    let diff = (f.stars.len() as i128) * old_area - 2i128 * new_area;
    assert!(0 <= diff && diff < old_area);
}

#[test]
fn shrinking_culls_and_never_adds() {
    let stars = vec![
        star_at(10_000_000, 10_000_000),
        star_at(150_000_000, 50_000_000),
        star_at(60_000_000, 90_000_000),
    ];
    let mut f = field_with_stars(stars, 200_000_000, 100_000_000);
    f.resize(100_000_000, 100_000_000);
    // the star at x == 150 pixels fell off; nothing is added
    assert_eq!(f.stars.len(), 2);
    assert_eq!(f.stars[0].x, 10_000_000);
    assert_eq!(f.stars[1].x, 60_000_000);
    for s in f.stars.iter() {
        assert!(s.x <= 100_000_000 && s.y <= 100_000_000);
    }
}

#[test]
fn first_valid_size_does_not_rebalance() {
    let mut f = field_with_stars(Vec::new(), 0, 0);
    f.resize(100_000_000, 100_000_000);
    assert_eq!(f.stars.len(), 0);
    assert_eq!(f.width, 100_000_000);
    assert_eq!(f.height, 100_000_000);
}

#[test]
fn fresh_field_keeps_its_stars_on_the_surface() {
    let f = StarField::new(320_000_000, 200_000_000, 150, 77);
    assert_eq!(f.stars.len(), 150);
    for s in f.stars.iter() {
        assert!(0 <= s.x && s.x <= f.width);
        assert!(0 <= s.y && s.y <= f.height);
        assert!(5_000 <= s.radius && s.radius <= 40_000);
        assert!(
            s.base_alpha == 500_000 || s.base_alpha == 700_000 || s.base_alpha == 900_000
        );
        assert!(2_000 <= s.twinkle_speed && s.twinkle_speed <= 5_000);
    }
}
