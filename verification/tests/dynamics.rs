use lunar_lander::controller::VerticalVelocityController;
use lunar_lander::geom::Vec3Fix;
use lunar_lander::input::{Controls, Gamepad, GamepadMap, GamepadSample};
use lunar_lander::lander::Lander;

fn idle_controls() -> Controls {
    Controls::new(Gamepad {
        map: GamepadMap {
            axis_strafe_x: 0,
            axis_strafe_y: 1,
            axis_pitch: 2,
            axis_roll: 3,
            button_yaw_left: 0,
            button_yaw_right: 1,
            button_vertical_velocity_up: 2,
            button_vertical_velocity_down: 3,
            button_start: 4,
        },
        joystick_dead_zone: None,
    })
}

#[test]
fn gravity_is_exact_with_dry_tanks_and_no_strafe() {
    // With no fuel and zero control input, one step changes the
    // vertical velocity by exactly gravity * dt: -1.620 * 0.033 in
    // fixed point is -53 thousandths.
    let mut l = Lander::new(Vec3Fix { x: 0, y: 0, z: 100_000 }, -2_900, -3_000, 20);
    l.fuel_mass = 0;
    let mut c = idle_controls();
    l.step(33, &mut c);
    assert_eq!(l.velocity.z, -2_953);
    assert_eq!(l.velocity.x, 0);
    assert_eq!(l.velocity.y, 0);
    // Position integrates the updated velocity.
    assert_eq!(l.position.z, 100_000 - 97);
}

#[test]
fn fuel_never_rises_and_burns_at_the_stated_rate() {
    let mut l = Lander::new(Vec3Fix { x: 0, y: 0, z: 200_000 }, 0, 0, 20);
    // A huge upward rate target saturates the throttle at one, burning
    // 15.0 kg/s * 0.033 s = 495 thousandths of a kilogram per tick.
    l.rod.adjust_target(1_000_000);
    let mut c = idle_controls();
    let mut last = l.fuel_mass;
    for _ in 0..100 {
        l.step(33, &mut c);
        assert!(l.fuel_mass <= last);
        assert!(l.fuel_mass >= 0);
        last = l.fuel_mass;
    }
    assert_eq!(l.fuel_mass, 600_000 - 100 * 495);
}

#[test]
fn fuel_floors_at_zero_with_near_empty_tanks() {
    let mut l = Lander::new(Vec3Fix { x: 0, y: 0, z: 200_000 }, 0, 0, 20);
    l.rod.adjust_target(1_000_000);
    l.fuel_mass = 100;
    let mut c = idle_controls();
    l.step(33, &mut c);
    assert_eq!(l.fuel_mass, 0);
    l.step(33, &mut c);
    assert_eq!(l.fuel_mass, 0);
}

#[test]
fn throttle_stays_within_unit_range() {
    // Extreme targets, masses and tilts: the throttle still lands in
    // [0, 1] (scaled).
    let cases: Vec<(i64, i64, i64, i64, i64)> = vec![
        (1_000_000_000, -1_000_000_000, 1, -1_000, 1),
        (-1_000_000_000, 1_000_000_000, 1_000_000_000, 1_000, 1_000),
        (0, -2_900, 6_700_000, 1_000, 33),
        (0, 0, 1, 0, 1_000),
    ];
    for (target, current, mass, cos_tilt, dt) in cases {
        let mut rod = VerticalVelocityController::new(target, 45_000_000);
        let r = rod.compute_throttle(current, mass, cos_tilt, dt);
        assert!((0..=1000).contains(&r), "throttle {r} out of range");
    }
}

#[test]
fn throttle_computes_the_stated_fixed_point_formula() {
    // target -2.0 m/s, current -4.0 m/s, dt 1 s: error 2.0, integral
    // 2.0, derivative 2.0; control = 0.8*2 + 0.05*2 + 0.3*2 = 2.3;
    // accel = -1.62 + 2.3 = 0.68; force = 6000 kg * 0.68 = 4080 N;
    // throttle = 4080 / 45000 = 0.090 (truncated).
    let mut rod = VerticalVelocityController::new(-2_000, 45_000_000);
    let r = rod.compute_throttle(-4_000, 6_000_000, 1_000, 1_000);
    assert_eq!(r, 90);
}

#[test]
fn throttle_saturates_when_tilt_component_vanishes() {
    // Lying on its side or inverted, a demanded climb saturates the
    // throttle rather than dividing by a vanishing cosine.
    let mut rod = VerticalVelocityController::new(1_000_000, 45_000_000);
    let r = rod.compute_throttle(-1_000_000, 6_000_000, 0, 33);
    assert_eq!(r, 1000);
    let mut rod2 = VerticalVelocityController::new(-20_000, 45_000_000);
    let r2 = rod2.compute_throttle(0, 6_000_000, -1_000, 33);
    assert_eq!(r2, 0);
}

#[test]
fn adjust_target_accumulates_operator_deltas() {
    let mut rod = VerticalVelocityController::new(-6_000, 45_000_000);
    assert_eq!(rod.target(), -6_000);
    rod.adjust_target(200);
    rod.adjust_target(-400);
    assert_eq!(rod.target(), -6_200);
}

#[test]
fn stop_freezes_velocities_only() {
    let mut l = Lander::new(Vec3Fix { x: 10, y: 20, z: 0 }, -2_000, -2_000, 20);
    l.angular_velocity = Vec3Fix { x: 5, y: 6, z: 7 };
    l.stop();
    assert_eq!(l.velocity, Vec3Fix { x: 0, y: 0, z: 0 });
    assert_eq!(l.angular_velocity, Vec3Fix { x: 0, y: 0, z: 0 });
    assert_eq!(l.position, Vec3Fix { x: 10, y: 20, z: 0 });
}

#[test]
fn operator_presses_adjust_the_rate_target_through_step() {
    let mut c = idle_controls();
    // One press of the vertical-velocity-up button.
    let press = GamepadSample { axes: vec![0, 0, 0, 0], buttons: vec![0, 0, 1, 0, 0] };
    c.update_from_msg(&press, 0);
    let mut l = Lander::new(Vec3Fix { x: 0, y: 0, z: 200_000 }, 0, -6_000, 20);
    l.step(33, &mut c);
    assert_eq!(l.rod.target(), -6_000 + 200);
    // The press was drained: another step leaves the target alone.
    l.step(33, &mut c);
    assert_eq!(l.rod.target(), -5_800);
}

#[test]
fn criteria_come_in_priority_order_with_their_thresholds() {
    let l = Lander::new(Vec3Fix { x: 0, y: 0, z: 0 }, -1_000, -1_000, 25);
    let crits = l.landing_criteria();
    assert_eq!(crits.len(), 5);
    let maxes: Vec<i64> = crits.iter().map(|c| c.max).collect();
    assert_eq!(maxes, vec![3_000, 1_000, 250, 250, 25_000]);
}

#[test]
fn has_landed_at_ground_level() {
    let above = Lander::new(Vec3Fix { x: 0, y: 0, z: 1 }, 0, 0, 20);
    assert!(!above.has_landed());
    let down = Lander::new(Vec3Fix { x: 0, y: 0, z: 0 }, 0, 0, 20);
    assert!(down.has_landed());
}
