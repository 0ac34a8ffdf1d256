use lunar_lander::fixed::{add_sat, clamp_fix, div_fix, isqrt, mul_fix, LIMIT};
use lunar_lander::geom::{QuatFix, Vec3Fix};
use lunar_lander::trig::{acos_fp, cos_fp, sin_fp};

#[test]
fn fixed_products_truncate_toward_zero() {
    assert_eq!(mul_fix(1_500, 2_000), 3_000);
    assert_eq!(mul_fix(-1_500, 2_000), -3_000);
    assert_eq!(mul_fix(1, 1), 0);
    assert_eq!(mul_fix(-1_620, 33), -53);
    assert_eq!(mul_fix(999, -999), -998);
}

#[test]
fn fixed_quotients_truncate_toward_zero() {
    assert_eq!(div_fix(1, 3), 333);
    assert_eq!(div_fix(-1, 3), -333);
    assert_eq!(div_fix(2_000, 1_000), 2_000);
    assert_eq!(div_fix(-1_000, 3_000), -333);
}

#[test]
fn integer_square_roots_are_exact_floors() {
    assert_eq!(isqrt(0), 0);
    assert_eq!(isqrt(15), 3);
    assert_eq!(isqrt(16), 4);
    assert_eq!(isqrt(2_000_000), 1_414);
    assert_eq!(isqrt(0x3fff_ffff_ffff_ffff), 2_147_483_647);
}

#[test]
fn saturating_addition_stops_at_the_state_range() {
    assert_eq!(add_sat(1, 2), 3);
    assert_eq!(add_sat(LIMIT, 1), LIMIT);
    assert_eq!(add_sat(-LIMIT, -1), -LIMIT);
    assert_eq!(clamp_fix(5, -3, 3), 3);
    assert_eq!(clamp_fix(-5, -3, 3), -3);
}

#[test]
fn circular_functions_hit_the_cardinal_points() {
    assert_eq!(sin_fp(0), 0);
    assert_eq!(cos_fp(0), 1_000);
    // A half turn: the quadrant fold gives exactly -1.
    assert_eq!(cos_fp(3_142), -1_000);
    assert_eq!(sin_fp(3_142), 0);
    // A full turn folds back to zero.
    assert_eq!(sin_fp(6_283), 0);
    assert_eq!(cos_fp(6_283), 1_000);
}

#[test]
fn quarter_turn_series_values() {
    // A whole quarter turn folds to the next quadrant's polynomial at
    // zero: exactly one and zero.
    assert_eq!(sin_fp(1_571), 1_000);
    assert_eq!(cos_fp(1_571), 0);
    // Just inside the quadrant, the sine series value as stated:
    // 1570 - 1570^3/6 + 1570^5/120 in fixed point.
    assert_eq!(sin_fp(1_570), 1_005);
}

#[test]
fn arccosine_covers_its_range() {
    assert_eq!(acos_fp(1_000), 0);
    // The series value for acos(0), within a hundredth of a quarter
    // turn.
    assert_eq!(acos_fp(0), 1_563);
    assert_eq!(acos_fp(-1_000), 3_142 - 0);
    assert!(acos_fp(969) > 200 && acos_fp(969) < 300);
}

#[test]
fn identity_rotation_leaves_vectors_alone() {
    let q = QuatFix::identity();
    let v = Vec3Fix { x: 120, y: -45, z: 990 };
    let r = lunar_lander::geom::rotate_vec(q, v);
    assert_eq!(r, v);
}

#[test]
fn half_turn_about_x_flips_y_and_z() {
    // The quaternion (1, 0, 0, 0) is a half turn about x.
    let q = QuatFix { x: 1_000, y: 0, z: 0, w: 0 };
    let v = Vec3Fix { x: 10, y: 20, z: 30 };
    let r = lunar_lander::geom::rotate_vec(q, v);
    assert_eq!(r, Vec3Fix { x: 10, y: -20, z: -30 });
}

#[test]
fn normalization_scales_onto_the_unit_sphere() {
    let q = QuatFix { x: 0, y: 0, z: 3_000, w: 4_000 };
    let n = lunar_lander::geom::quat_normalize(q);
    assert_eq!(n, QuatFix { x: 0, y: 0, z: 600, w: 800 });
    let zero = QuatFix { x: 0, y: 0, z: 0, w: 0 };
    assert_eq!(lunar_lander::geom::quat_normalize(zero), QuatFix::identity());
}
