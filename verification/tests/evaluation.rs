use lunar_lander::geom::Vec3Fix;
use lunar_lander::lander::Lander;
use lunar_lander::landing::{LandingCriterion, LandingReport, LandingStatus};

fn ideal_criteria() -> Vec<LandingCriterion> {
    vec![
        LandingCriterion::vertical_speed(3_000, 2_900),
        LandingCriterion::horizontal_speed(1_000, 0),
        LandingCriterion::tilt(250, 0),
        LandingCriterion::angular_speed(250, 0),
        LandingCriterion::distance_from_target(20_000, 0),
    ]
}

#[test]
fn gentle_touchdown_in_the_zone_is_landed() {
    // Descending at exactly -2.9 m/s, otherwise ideal, on target:
    // landed, with the score the sum of five positive margins.
    let l = Lander::new(Vec3Fix { x: 0, y: 0, z: 0 }, -2_900, -2_900, 20);
    let report = l.landing_report().expect("on the ground");
    assert_eq!(report.status(), LandingStatus::Landed);
    // 2*(100/3000) + 4 * 2*(1) in milli-units, truncated.
    assert_eq!(report.score, 66 + 2_000 + 2_000 + 2_000 + 2_000);
    assert_eq!(report.criteria.len(), 5);
    assert_eq!(report.criteria[0].actual, 2_900);
}

#[test]
fn fast_descent_is_crashed_on_the_first_criterion() {
    // -5.0 m/s exceeds the 3.0 m/s bound: the first failing criterion
    // is vertical speed, so the landing is a crash.
    let l = Lander::new(Vec3Fix { x: 0, y: 0, z: 0 }, -5_000, -5_000, 20);
    let report = l.landing_report().expect("on the ground");
    assert_eq!(report.status(), LandingStatus::Crashed);
    assert_eq!(report.criteria[0].actual, 5_000);
    // Vertical margin 2*(-2000/3000) = -1332; the other four are full.
    assert_eq!(report.score, -1_332 + 2_000 + 2_000 + 2_000 + 2_000);
}

#[test]
fn off_target_touchdown_is_missed() {
    // Ideal velocity, tilt and spin, but twice the zone radius away.
    let l = Lander::new(Vec3Fix { x: 40_000, y: 0, z: 0 }, 0, 0, 20);
    let report = l.landing_report().expect("on the ground");
    assert_eq!(report.status(), LandingStatus::Missed);
    assert_eq!(report.criteria[4].actual, 40_000);
}

#[test]
fn no_report_before_the_ground() {
    let l = Lander::new(Vec3Fix { x: 0, y: 0, z: 50_000 }, -2_000, -2_000, 20);
    assert!(l.landing_report().is_none());
}

#[test]
fn classification_and_score_are_deterministic() {
    // Same final state, repeated evaluation: identical classification
    // and score, whatever the remark draw.
    let a = LandingReport::new(ideal_criteria());
    let b = LandingReport::new(ideal_criteria());
    assert_eq!(a.status(), b.status());
    assert_eq!(a.score, b.score);
    let c = LandingReport::new_with_draw(ideal_criteria(), 7);
    let d = LandingReport::new_with_draw(ideal_criteria(), 7);
    assert_eq!(c.status(), d.status());
    assert_eq!(c.score, d.score);
    assert_eq!(c.remark, d.remark);
}

#[test]
fn score_falls_as_a_measured_value_rises() {
    let mut worse = ideal_criteria();
    worse[2] = LandingCriterion::tilt(250, 200);
    let a = LandingReport::new(ideal_criteria());
    let b = LandingReport::new(worse);
    assert!(a.score > b.score);
}

#[test]
fn remark_follows_the_first_failing_criterion() {
    let mut crits = ideal_criteria();
    crits[0] = LandingCriterion::vertical_speed(3_000, 9_000);
    let a = LandingReport::new_with_draw(crits.clone(), 0);
    assert_eq!(a.remark, "You've redefined the term 'lunar impactor'.");
    let b = LandingReport::new_with_draw(crits, 1);
    assert_eq!(b.remark, "NASA's crater department thanks you for the new research subject.");
    let success = LandingReport::new_with_draw(ideal_criteria(), 3);
    assert_eq!(success.remark, "The eagle has landed.");
}

#[test]
fn criterion_margin_is_the_stated_formula() {
    let c = LandingCriterion::vertical_speed(3_000, 2_900);
    assert!(c.ok());
    assert_eq!(c.score(), 33);
    let f = LandingCriterion::vertical_speed(3_000, 5_000);
    assert!(!f.ok());
    assert_eq!(f.score(), -666);
}

#[test]
fn priority_order_decides_between_crash_and_miss() {
    // Both the tilt and the distance fail: tilt comes first, so the
    // landing is a crash, not a miss.
    let crits = vec![
        LandingCriterion::vertical_speed(3_000, 0),
        LandingCriterion::horizontal_speed(1_000, 0),
        LandingCriterion::tilt(250, 800),
        LandingCriterion::angular_speed(250, 0),
        LandingCriterion::distance_from_target(20_000, 50_000),
    ];
    let report = LandingReport::new(crits);
    assert_eq!(report.status(), LandingStatus::Crashed);
    // Distance alone failing is a miss.
    let crits2 = vec![
        LandingCriterion::vertical_speed(3_000, 0),
        LandingCriterion::horizontal_speed(1_000, 0),
        LandingCriterion::tilt(250, 0),
        LandingCriterion::angular_speed(250, 0),
        LandingCriterion::distance_from_target(20_000, 50_000),
    ];
    assert_eq!(LandingReport::new(crits2).status(), LandingStatus::Missed);
}

#[test]
fn sideways_speed_is_measured_from_both_axes() {
    let mut l = Lander::new(Vec3Fix { x: 0, y: 0, z: 0 }, 0, 0, 20);
    l.velocity = Vec3Fix { x: 300, y: 400, z: 0 };
    // 3-4-5 triangle: the planar speed is exactly 500.
    assert_eq!(l.horizontal_speed(), 500);
    let report = l.landing_report().expect("on the ground");
    assert_eq!(report.status(), LandingStatus::Landed);
}

#[test]
fn distance_criterion_is_planar() {
    // Settled half a metre below pad level, dead centre: the planar
    // distance is zero, and the craft still lands.
    let mut l = Lander::new(Vec3Fix { x: 0, y: 0, z: 0 }, 0, 0, 20);
    l.position = Vec3Fix { x: 0, y: 0, z: -500 };
    assert_eq!(l.distance_from_landing_zone(), 0);
    let report = l.landing_report().expect("on the ground");
    assert_eq!(report.status(), LandingStatus::Landed);
    assert_eq!(report.criteria[4].actual, 0);
    // Depth below the pad never adds to the planar measure.
    l.position = Vec3Fix { x: 3_000, y: 4_000, z: -2_000 };
    assert_eq!(l.distance_from_landing_zone(), 5_000);
}
