use lunar_lander::landscape::Landscape;
use lunar_lander::params::Parameters;
use lunar_lander::fixed::mul_fix;
use lunar_lander::rng::{rng_from_seed, rng_next_u64};
use lunar_lander::trig::{cos_fp, sin_fp};
use lunar_lander::terrain::HeightMap;

/// A deterministic, bumpy height field.
fn bumpy_heights(width: u32) -> Vec<i64> {
    let n = (width as usize) * (width as usize);
    (0..n).map(|i| ((i % 13) as i64) * 250 - 1_500).collect()
}

#[test]
fn flat_disk_takes_the_centre_height_exactly() {
    let width = 41u32;
    let mut m = HeightMap::new(width, bumpy_heights(width));
    let original = m.clone();
    let centre = m.create_landing_zone(20, 20, 5);
    let cz = original.get(20, 20);
    assert_eq!(centre.x, 20_000);
    assert_eq!(centre.y, 20_000);
    assert_eq!(centre.z, cz);
    for ix in 0..width {
        for iy in 0..width {
            let dx = ix as i64 - 20;
            let dy = iy as i64 - 20;
            if dx * dx + dy * dy <= 25 {
                assert_eq!(m.get(ix, iy), cz, "cell ({ix},{iy}) should be flat");
            }
        }
    }
}

#[test]
fn cells_beyond_the_blend_radius_are_untouched() {
    let width = 41u32;
    let mut m = HeightMap::new(width, bumpy_heights(width));
    let original = m.clone();
    m.create_landing_zone(20, 20, 5);
    // Blend radius is 5 + 3 = 8 cells.
    for ix in 0..width {
        for iy in 0..width {
            let dx = ix as i64 - 20;
            let dy = iy as i64 - 20;
            if dx * dx + dy * dy >= 64 {
                assert_eq!(m.get(ix, iy), original.get(ix, iy), "cell ({ix},{iy}) moved");
            }
        }
    }
}

#[test]
fn annulus_blends_between_centre_and_original() {
    let width = 41u32;
    let mut m = HeightMap::new(width, bumpy_heights(width));
    let original = m.clone();
    m.create_landing_zone(20, 20, 5);
    let cz = original.get(20, 20);
    // Six cells east of centre: distance 6.000, so t = (6000-5000)/2
    // clamped is 500, half way between the centre and the original.
    let zorig = original.get(26, 20);
    let expected = (500 * cz + 500 * zorig) / 1000;
    assert_eq!(m.get(26, 20), expected);
}

#[test]
fn carving_near_the_edge_truncates_silently() {
    let width = 12u32;
    let mut m = HeightMap::new(width, bumpy_heights(width));
    let original = m.clone();
    let centre = m.create_landing_zone(1, 1, 5);
    assert_eq!(centre.z, original.get(1, 1));
    // The flat disk still holds where it fits on the grid.
    assert_eq!(m.get(0, 0), original.get(1, 1));
    assert_eq!(m.get(4, 3), original.get(1, 1));
}

#[test]
fn random_zone_is_deterministic_for_a_seed() {
    let width = 60u32;
    let mut a = HeightMap::new(width, bumpy_heights(width));
    let mut b = HeightMap::new(width, bumpy_heights(width));
    let mut rng_a = rng_from_seed(7);
    let mut rng_b = rng_from_seed(7);
    let ca = a.create_random_landing_zone(&mut rng_a, 5, 20, 4);
    let cb = b.create_random_landing_zone(&mut rng_b, 5, 20, 4);
    assert_eq!(ca, cb);
    for ix in 0..width {
        for iy in 0..width {
            assert_eq!(a.get(ix, iy), b.get(ix, iy));
        }
    }
}

#[test]
fn random_zone_centre_is_flat_at_its_own_height() {
    let width = 60u32;
    let mut m = HeightMap::new(width, bumpy_heights(width));
    let mut rng = rng_from_seed(99);
    let centre = m.create_random_landing_zone(&mut rng, 5, 20, 4);
    let cx = (centre.x / 1000) as u32;
    let cy = (centre.y / 1000) as u32;
    assert_eq!(m.get(cx, cy), centre.z);
    // Neighbours inside the flat radius share it where they exist.
    if cx + 2 < width && cy + 2 < width {
        assert_eq!(m.get(cx + 2, cy + 2), centre.z);
    }
}

#[test]
fn landscape_places_the_lander_over_the_grid_centre() {
    let params = Parameters::default();
    let width = params.landscape_width();
    let heights = vec![0i64; (width as usize) * (width as usize)];
    let mut rng = rng_from_seed(1);
    let scape = Landscape::new(&mut rng, &params, heights);
    let pos = scape.lander_init_position();
    // Flat terrain: the zone height is zero, so the start altitude is
    // exactly the configured one, relative to the zone centre.
    assert_eq!(pos.z, 200_000);
    assert_eq!(pos.x, 500 * (width as i64) - scape.landing_zone_center.x);
    assert_eq!(pos.y, 500 * (width as i64) - scape.landing_zone_center.y);
    // The zone itself is carved level.
    let cx = (scape.landing_zone_center.x / 1000) as u32;
    let cy = (scape.landing_zone_center.y / 1000) as u32;
    assert_eq!(scape.height_map.get(cx, cy), 0);
}

#[test]
fn height_map_reports_square_dimensions() {
    let m = HeightMap::new(10, vec![0i64; 100]);
    assert_eq!(m.width(), 10);
    assert_eq!(m.depth(), 10);
    let c = m.center();
    assert_eq!((c.x, c.y, c.z), (5_000, 5_000, 0));
}

#[test]
fn random_zone_centre_follows_the_drawn_angle_and_distance() {
    let width = 60u32;
    let mut m = HeightMap::new(width, bumpy_heights(width));
    let mut rng = rng_from_seed(11);
    let centre = m.create_random_landing_zone(&mut rng, 5, 20, 4);
    // Replay the same draws and evaluate the stated placement formula:
    // grid centre offset by the drawn distance along the drawn angle.
    let mut replay = rng_from_seed(11);
    let a = rng_next_u64(&mut replay);
    let d = rng_next_u64(&mut replay);
    let angle = (a % 6_283) as i64;
    let len = (5 + (d % 15)) as i64;
    let off_x = mul_fix(len * 1_000, cos_fp(angle));
    let off_y = mul_fix(len * 1_000, sin_fp(angle));
    let half = (width as i64) * 500;
    let cx = ((half + off_x) / 1_000).clamp(0, (width - 1) as i64);
    let cy = ((half + off_y) / 1_000).clamp(0, (width - 1) as i64);
    assert_eq!(centre.x, cx * 1_000);
    assert_eq!(centre.y, cy * 1_000);
}
