use lunar_lander::geom::{Vec2Fix, Vec3Fix};
use lunar_lander::input::{Button, Controls, Gamepad, GamepadMap, GamepadSample};

fn test_gamepad() -> Gamepad {
    Gamepad {
        map: GamepadMap {
            axis_strafe_x: 0,
            axis_strafe_y: 1,
            axis_pitch: 2,
            axis_roll: 3,
            button_yaw_left: 0,
            button_yaw_right: 1,
            button_vertical_velocity_up: 2,
            button_vertical_velocity_down: 3,
            button_start: 4,
        },
        joystick_dead_zone: None,
    }
}

#[test]
fn button_counts_two_edges_over_four_samples() {
    // Sampled true, true, false, true with no repeat timer: two
    // false-to-true edges.
    let mut b = Button::default();
    b.update(true, 0);
    b.update(true, 1);
    b.update(false, 2);
    b.update(true, 3);
    assert_eq!(b.get(), 2);
}

#[test]
fn button_repeat_timer_retriggers_while_held() {
    let mut b = Button::with_repeater(100);
    b.update(true, 0);
    assert_eq!(b.get(), 1);
    // Still held before the deadline: no new edge.
    b.update(true, 50);
    assert_eq!(b.get(), 1);
    // Deadline elapsed while held: the debounced flag reopens and the
    // held button re-triggers.
    b.update(true, 150);
    assert_eq!(b.get(), 2);
}

#[test]
fn button_drain_resets_count_but_not_state() {
    let mut b = Button::default();
    b.update(true, 0);
    assert_eq!(b.get_and_reset(), 1);
    assert_eq!(b.get(), 0);
    // Still held: no new edge after the drain.
    b.update(true, 1);
    assert_eq!(b.get(), 0);
}

#[test]
fn button_reset_soft_and_hard() {
    let mut b = Button::default();
    b.update(true, 0);
    b.reset(false);
    assert_eq!(b.get(), 0);
    assert!(b.pressed);
    b.reset(true);
    assert!(!b.pressed);
}

#[test]
fn dead_zone_suppresses_small_axis_values() {
    let g = test_gamepad();
    let msg = GamepadSample { axes: vec![500, -99, 100, -1500], buttons: vec![] };
    assert_eq!(g.read_strafe_x(&msg), 500);
    // Below the default dead zone of 0.10: zero.
    assert_eq!(g.read_strafe_y(&msg), 0);
    // Exactly at the dead zone: kept, and pitch is negated.
    assert_eq!(g.read_pitch(&msg), -100);
    // Out-of-range values clamp to one unit; roll is negated.
    assert_eq!(g.read_roll(&msg), 1000);
}

#[test]
fn missing_sample_fields_read_as_zero() {
    let g = test_gamepad();
    let msg = GamepadSample { axes: vec![], buttons: vec![] };
    assert_eq!(g.read_strafe_x(&msg), 0);
    assert!(!g.read_start(&msg));
}

#[test]
fn controls_update_from_msg_maps_all_signals() {
    let mut c = Controls::new(test_gamepad());
    let msg = GamepadSample {
        axes: vec![300, -400, 700, -800],
        buttons: vec![1000, 0, 1, 0, 500],
    };
    c.update_from_msg(&msg, 0);
    assert_eq!(c.strafe(), Vec2Fix { x: 300, y: -400 });
    // Pitch and roll negated, yaw left alone pressed gives +0.5.
    assert_eq!(c.rotate(), Vec3Fix { x: -700, y: 800, z: 500 });
    assert!(c.get_reset_requested());
    assert_eq!(c.get_and_reset_vertical_velocity_delta(), 200);
}

#[test]
fn yaw_both_pressed_reads_zero() {
    let mut c = Controls::new(test_gamepad());
    let msg = GamepadSample { axes: vec![0, 0, 0, 0], buttons: vec![1, 1, 0, 0, 0] };
    c.update_from_msg(&msg, 0);
    assert_eq!(c.rotate().z, 0);
}

#[test]
fn vertical_velocity_delta_counts_both_directions() {
    let mut c = Controls::new(test_gamepad());
    let down = GamepadSample { axes: vec![0, 0, 0, 0], buttons: vec![0, 0, 0, 1, 0] };
    let released = GamepadSample { axes: vec![0, 0, 0, 0], buttons: vec![0, 0, 0, 0, 0] };
    c.update_from_msg(&down, 0);
    c.update_from_msg(&released, 1);
    c.update_from_msg(&down, 2);
    assert_eq!(c.get_and_reset_vertical_velocity_delta(), -400);
    assert_eq!(c.get_and_reset_vertical_velocity_delta(), 0);
}

#[test]
fn soft_reset_keeps_pressed_state() {
    let mut c = Controls::new(test_gamepad());
    let msg = GamepadSample { axes: vec![900, 0, 0, 0], buttons: vec![0, 0, 1, 0, 1] };
    c.update_from_msg(&msg, 0);
    c.soft_reset();
    assert_eq!(c.strafe(), Vec2Fix { x: 0, y: 0 });
    assert!(!c.get_reset_requested());
    assert!(c.vertical_velocity_up.pressed);
    c.hard_reset();
    assert!(!c.vertical_velocity_up.pressed);
}

#[test]
fn short_sample_is_dropped_and_state_persists() {
    let mut c = Controls::new(test_gamepad());
    let good = GamepadSample {
        axes: vec![300, -400, 700, -800],
        buttons: vec![1000, 0, 1, 0, 500],
    };
    c.update_from_msg(&good, 0);
    let before_strafe = c.strafe();
    let before_rotate = c.rotate();
    // A mapped button index is missing: the sample is malformed, so it
    // is dropped whole and the previous control state persists.
    let short = GamepadSample { axes: vec![0, 0, 0, 0], buttons: vec![0, 0] };
    c.update_from_msg(&short, 1);
    assert_eq!(c.strafe(), before_strafe);
    assert_eq!(c.rotate(), before_rotate);
    assert!(c.get_reset_requested());
    assert_eq!(c.get_and_reset_vertical_velocity_delta(), 200);
}
