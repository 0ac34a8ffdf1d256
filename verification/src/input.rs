//! Input conditioning: dead-zone filtering of analog axes, edge-triggered
//! button counters with an optional auto-repeat timer, and the control
//! state a simulation tick drains.
//!
//! Time enters as a plain count of elapsed milliseconds supplied by the
//! caller, so every decision in here is a function of its arguments.

use vstd::prelude::*;

verus! {

use crate::fixed::{SCALE, spec_clamp, clamp_fix};
use crate::geom::{Vec2Fix, Vec3Fix};

/// Default dead zone: axis magnitudes below 0.10 read as zero.
pub const DEFAULT_JOYSTICK_DEAD_ZONE: i64 = 100;

/// Auto-repeat interval for the vertical-velocity buttons, in milliseconds.
pub const REPEAT_INTERVAL_MS: u64 = 100;

/// An edge-triggered button counter.
///
/// `count` grows only on a false-to-true transition of the debounced
/// `pressed` flag. With a repeat `timeout`, a deadline is armed on each
/// press; once it elapses the debounced flag is cleared so that a button
/// still physically held re-triggers at the repeat cadence.
#[derive(Clone, Debug)]
pub struct Button {
    pub pressed: bool,
    pub count: u32,
    pub timeout: Option<u64>,
    pub deadline: Option<u64>,
}

/// Clearing of an elapsed repeat deadline, the first half of an update.
pub open spec fn spec_expire_deadline(b: Button, now: u64) -> Button {
    match b.deadline {
        Some(d) => if now >= d {
            Button { pressed: false, count: b.count, timeout: b.timeout, deadline: None }
        } else {
            b
        },
        None => b,
    }
}

/// One debounced update from a raw sample, after deadline expiry.
/// The counter saturates at `u32::MAX` instead of wrapping.
pub open spec fn spec_button_edge(b: Button, sample: bool, now: u64) -> Button {
    if sample && !b.pressed {
        Button {
            pressed: true,
            count: if b.count == u32::MAX {
                b.count
            } else {
                (b.count + 1) as u32
            },
            timeout: b.timeout,
            deadline: match b.timeout {
                Some(t) => if now + t <= u64::MAX {
                    Some((now + t) as u64)
                } else {
                    Some(u64::MAX)
                },
                None => b.deadline,
            },
        }
    } else if !sample && b.pressed {
        Button { pressed: false, count: b.count, timeout: b.timeout, deadline: b.deadline }
    } else {
        b
    }
}

/// The full effect of feeding one raw sample at time `now`.
pub open spec fn spec_button_update(b: Button, sample: bool, now: u64) -> Button {
    spec_button_edge(spec_expire_deadline(b, now), sample, now)
}

impl Button {
    /// A button with auto-repeat at the given interval.
    pub fn with_repeater(timeout: u64) -> (r: Button)
        ensures
            r == (Button { pressed: false, count: 0, timeout: Some(timeout), deadline: None }),
    {
        Button { pressed: false, count: 0, timeout: Some(timeout), deadline: None }
    }

    /// Feeds one raw sample at time `now` (milliseconds).
    pub fn update(&mut self, sample: bool, now: u64)
        ensures
            *final(self) == spec_button_update(*old(self), sample, now),
            final(self).count >= old(self).count,
            final(self).timeout == old(self).timeout,
    {
        match self.deadline {
            Some(d) => {
                if now >= d {
                    self.pressed = false;
                    self.deadline = None;
                }
            },
            None => {},
        }
        if sample && !self.pressed {
            self.pressed = true;
            if self.count < u32::MAX {
                self.count = self.count + 1;
            }
            match self.timeout {
                Some(t) => {
                    self.deadline = Some(now.saturating_add(t));
                },
                None => {},
            }
        } else if !sample && self.pressed {
            self.pressed = false;
        }
    }

    /// The number of edges seen since the last drain.
    pub fn get(&self) -> (r: u32)
        ensures
            r == self.count,
    {
        self.count
    }

    /// Drains the counter: reads it and resets it to zero.
    pub fn get_and_reset(&mut self) -> (r: u32)
        ensures
            r == old(self).count,
            *final(self) == (Button {
                pressed: old(self).pressed,
                count: 0,
                timeout: old(self).timeout,
                deadline: old(self).deadline,
            }),
    {
        let value: u32 = self.count;
        self.count = 0;
        value
    }

    /// Clears the counter; a hard reset also forgets the debounced
    /// pressed flag and any armed deadline.
    pub fn reset(&mut self, hard: bool)
        ensures
            final(self).count == 0,
            final(self).timeout == old(self).timeout,
            hard ==> !final(self).pressed && final(self).deadline is None,
            !hard ==> final(self).pressed == old(self).pressed && final(self).deadline == old(
                self,
            ).deadline,
    {
        self.count = 0;
        if hard {
            self.pressed = false;
            self.deadline = None;
        }
    }
}

impl Default for Button {
    /// A plain button: released, zero count, no auto-repeat.
    fn default() -> (r: Button)
        ensures
            r == (Button { pressed: false, count: 0, timeout: None, deadline: None }),
    {
        Button { pressed: false, count: 0, timeout: None, deadline: None }
    }
}

/// Index of each control in a raw sample.
#[derive(Clone, Copy, Debug)]
pub struct GamepadMap {
    pub axis_strafe_x: usize,
    pub axis_strafe_y: usize,
    pub axis_roll: usize,
    pub axis_pitch: usize,
    pub button_yaw_left: usize,
    pub button_yaw_right: usize,
    pub button_vertical_velocity_up: usize,
    pub button_vertical_velocity_down: usize,
    pub button_start: usize,
}

/// Gamepad configuration: the index map and an optional dead-zone
/// override, in milli-units.
#[derive(Clone, Copy, Debug)]
pub struct Gamepad {
    pub map: GamepadMap,
    pub joystick_dead_zone: Option<i64>,
}

/// One raw sample: analog axis values and button values, both in
/// milli-units. A button counts as pressed when its value is positive.
#[derive(Clone, Debug)]
pub struct GamepadSample {
    pub axes: Vec<i64>,
    pub buttons: Vec<i64>,
}

/// An axis value clamped into [-1, 1]. A missing index reads as zero
/// at this accessor; `update_from_msg` drops a sample missing a mapped
/// index before any accessor runs.
pub open spec fn spec_sample_axis(s: GamepadSample, idx: int) -> int {
    if 0 <= idx < s.axes@.len() {
        spec_clamp(s.axes@[idx] as int, -SCALE as int, SCALE as int)
    } else {
        0
    }
}

/// A button value; a missing index reads as released at this accessor.
pub open spec fn spec_sample_button(s: GamepadSample, idx: int) -> bool {
    0 <= idx < s.buttons@.len() && s.buttons@[idx] > 0
}

pub open spec fn spec_dead_zone(g: Gamepad) -> int {
    match g.joystick_dead_zone {
        Some(d) => d as int,
        None => DEFAULT_JOYSTICK_DEAD_ZONE as int,
    }
}

/// Dead-zone conditioning: magnitudes below the dead zone read as zero.
pub open spec fn spec_read_axis(g: Gamepad, s: GamepadSample, idx: int) -> int {
    let raw = spec_sample_axis(s, idx);
    if -spec_dead_zone(g) < raw < spec_dead_zone(g) {
        0
    } else {
        raw
    }
}

/// The sample carries every mapped axis and button. A sample that does
/// not is malformed: it is dropped whole, and the previous control
/// state persists.
pub open spec fn spec_sample_complete(g: Gamepad, s: GamepadSample) -> bool {
    &&& g.map.axis_strafe_x < s.axes@.len()
    &&& g.map.axis_strafe_y < s.axes@.len()
    &&& g.map.axis_pitch < s.axes@.len()
    &&& g.map.axis_roll < s.axes@.len()
    &&& g.map.button_yaw_left < s.buttons@.len()
    &&& g.map.button_yaw_right < s.buttons@.len()
    &&& g.map.button_vertical_velocity_up < s.buttons@.len()
    &&& g.map.button_vertical_velocity_down < s.buttons@.len()
    &&& g.map.button_start < s.buttons@.len()
}

impl GamepadSample {
    fn read_axis(&self, idx: usize) -> (r: i64)
        ensures
            r == spec_sample_axis(*self, idx as int),
    {
        if idx < self.axes.len() {
            clamp_fix(self.axes[idx], -SCALE, SCALE)
        } else {
            0
        }
    }

    fn read_button(&self, idx: usize) -> (r: bool)
        ensures
            r == spec_sample_button(*self, idx as int),
    {
        if idx < self.buttons.len() {
            self.buttons[idx] > 0
        } else {
            false
        }
    }
}

impl Gamepad {
    fn read_axis(&self, msg: &GamepadSample, idx: usize) -> (r: i64)
        ensures
            r == spec_read_axis(*self, *msg, idx as int),
    {
        let raw: i64 = msg.read_axis(idx);
        let dead_zone: i64 = match self.joystick_dead_zone {
            Some(d) => d,
            None => DEFAULT_JOYSTICK_DEAD_ZONE,
        };
        if raw < dead_zone && -raw < dead_zone {
            0
        } else {
            raw
        }
    }

    pub fn read_strafe_x(&self, msg: &GamepadSample) -> (r: i64)
        ensures
            r == spec_read_axis(*self, *msg, self.map.axis_strafe_x as int),
    {
        self.read_axis(msg, self.map.axis_strafe_x)
    }

    pub fn read_strafe_y(&self, msg: &GamepadSample) -> (r: i64)
        ensures
            r == spec_read_axis(*self, *msg, self.map.axis_strafe_y as int),
    {
        self.read_axis(msg, self.map.axis_strafe_y)
    }

    /// Pitch is the negated conditioned axis value.
    pub fn read_pitch(&self, msg: &GamepadSample) -> (r: i64)
        ensures
            r == -spec_read_axis(*self, *msg, self.map.axis_pitch as int),
    {
        -self.read_axis(msg, self.map.axis_pitch)
    }

    /// Roll is the negated conditioned axis value.
    pub fn read_roll(&self, msg: &GamepadSample) -> (r: i64)
        ensures
            r == -spec_read_axis(*self, *msg, self.map.axis_roll as int),
    {
        -self.read_axis(msg, self.map.axis_roll)
    }

    pub fn read_yaw_left(&self, msg: &GamepadSample) -> (r: bool)
        ensures
            r == spec_sample_button(*msg, self.map.button_yaw_left as int),
    {
        msg.read_button(self.map.button_yaw_left)
    }

    pub fn read_yaw_right(&self, msg: &GamepadSample) -> (r: bool)
        ensures
            r == spec_sample_button(*msg, self.map.button_yaw_right as int),
    {
        msg.read_button(self.map.button_yaw_right)
    }

    pub fn read_vertical_velocity_up(&self, msg: &GamepadSample) -> (r: bool)
        ensures
            r == spec_sample_button(*msg, self.map.button_vertical_velocity_up as int),
    {
        msg.read_button(self.map.button_vertical_velocity_up)
    }

    pub fn read_vertical_velocity_down(&self, msg: &GamepadSample) -> (r: bool)
        ensures
            r == spec_sample_button(*msg, self.map.button_vertical_velocity_down as int),
    {
        msg.read_button(self.map.button_vertical_velocity_down)
    }

    pub fn read_start(&self, msg: &GamepadSample) -> (r: bool)
        ensures
            r == spec_sample_button(*msg, self.map.button_start as int),
    {
        msg.read_button(self.map.button_start)
    }

    /// Whether the sample carries every mapped control.
    pub fn sample_complete(&self, msg: &GamepadSample) -> (r: bool)
        ensures
            r == spec_sample_complete(*self, *msg),
    {
        self.map.axis_strafe_x < msg.axes.len() && self.map.axis_strafe_y < msg.axes.len()
            && self.map.axis_pitch < msg.axes.len() && self.map.axis_roll < msg.axes.len()
            && self.map.button_yaw_left < msg.buttons.len() && self.map.button_yaw_right
            < msg.buttons.len() && self.map.button_vertical_velocity_up < msg.buttons.len()
            && self.map.button_vertical_velocity_down < msg.buttons.len()
            && self.map.button_start < msg.buttons.len()
    }
}

/// The two discrete yaw buttons folded into a signed rate: exactly one
/// pressed gives one half turn rate with its sign, anything else zero.
pub open spec fn spec_yaw_value(left: bool, right: bool) -> int {
    if left && !right {
        (SCALE as int) / 2
    } else if right && !left {
        -(SCALE as int) / 2
    } else {
        0
    }
}

/// The control state after one raw sample: a complete sample updates
/// every signal; a sample missing a mapped index is dropped whole and
/// the previous state persists (fail-open).
pub open spec fn spec_controls_update(c: Controls, msg: GamepadSample, now: u64) -> Controls {
    if !spec_sample_complete(c.gamepad, msg) {
        c
    } else {
        Controls {
            gamepad: c.gamepad,
            reset_button: spec_button_update(
                c.reset_button,
                spec_sample_button(msg, c.gamepad.map.button_start as int),
                now,
            ),
            strafe: Vec2Fix {
                x: spec_read_axis(c.gamepad, msg, c.gamepad.map.axis_strafe_x as int) as i64,
                y: spec_read_axis(c.gamepad, msg, c.gamepad.map.axis_strafe_y as int) as i64,
            },
            rotate: Vec3Fix {
                x: (-spec_read_axis(c.gamepad, msg, c.gamepad.map.axis_pitch as int)) as i64,
                y: (-spec_read_axis(c.gamepad, msg, c.gamepad.map.axis_roll as int)) as i64,
                z: spec_yaw_value(
                    spec_sample_button(msg, c.gamepad.map.button_yaw_left as int),
                    spec_sample_button(msg, c.gamepad.map.button_yaw_right as int),
                ) as i64,
            },
            vertical_velocity_up: spec_button_update(
                c.vertical_velocity_up,
                spec_sample_button(msg, c.gamepad.map.button_vertical_velocity_up as int),
                now,
            ),
            vertical_velocity_down: spec_button_update(
                c.vertical_velocity_down,
                spec_sample_button(msg, c.gamepad.map.button_vertical_velocity_down as int),
                now,
            ),
        }
    }
}

/// Conditioned control state, drained once per simulation tick.
#[derive(Clone, Debug)]
pub struct Controls {
    pub gamepad: Gamepad,
    pub reset_button: Button,
    pub strafe: Vec2Fix,
    pub rotate: Vec3Fix,
    pub vertical_velocity_up: Button,
    pub vertical_velocity_down: Button,
}

impl Controls {
    /// The conditioned signals stay within one unit: what
    /// `update_from_msg` guarantees, and what the dynamics step needs.
    pub open spec fn in_range(self) -> bool {
        &&& -SCALE <= self.strafe.x <= SCALE
        &&& -SCALE <= self.strafe.y <= SCALE
        &&& -SCALE <= self.rotate.x <= SCALE
        &&& -SCALE <= self.rotate.y <= SCALE
        &&& -SCALE <= self.rotate.z <= SCALE
    }

    pub fn new(gamepad: Gamepad) -> (r: Controls)
        ensures
            r.gamepad == gamepad,
            r.reset_button == (Button { pressed: false, count: 0, timeout: None, deadline: None }),
            r.strafe == (Vec2Fix { x: 0, y: 0 }),
            r.rotate == (Vec3Fix { x: 0, y: 0, z: 0 }),
            r.vertical_velocity_up == (Button {
                pressed: false,
                count: 0,
                timeout: Some(REPEAT_INTERVAL_MS),
                deadline: None,
            }),
            r.vertical_velocity_down == (Button {
                pressed: false,
                count: 0,
                timeout: Some(REPEAT_INTERVAL_MS),
                deadline: None,
            }),
    {
        Controls {
            gamepad,
            reset_button: Button::default(),
            strafe: Vec2Fix::zero(),
            rotate: Vec3Fix::zero(),
            vertical_velocity_up: Button::with_repeater(REPEAT_INTERVAL_MS),
            vertical_velocity_down: Button::with_repeater(REPEAT_INTERVAL_MS),
        }
    }

    /// Feeds one raw sample received at time `now` (milliseconds).
    /// A sample missing a mapped index is dropped whole: the previous
    /// control state persists unchanged.
    pub fn update_from_msg(&mut self, msg: &GamepadSample, now: u64)
        ensures
            *final(self) == spec_controls_update(*old(self), *msg, now),
            old(self).in_range() || spec_sample_complete(old(self).gamepad, *msg)
                ==> final(self).in_range(),
    {
        if !self.gamepad.sample_complete(msg) {
            return ;
        }
        let start: bool = self.gamepad.read_start(msg);
        self.reset_button.update(start, now);
        self.strafe = Vec2Fix {
            x: self.gamepad.read_strafe_x(msg),
            y: self.gamepad.read_strafe_y(msg),
        };
        let left: bool = self.gamepad.read_yaw_left(msg);
        let right: bool = self.gamepad.read_yaw_right(msg);
        let yaw: i64 = if left && !right {
            SCALE / 2
        } else if right && !left {
            -SCALE / 2
        } else {
            0
        };
        self.rotate = Vec3Fix {
            x: self.gamepad.read_pitch(msg),
            y: self.gamepad.read_roll(msg),
            z: yaw,
        };
        let up: bool = self.gamepad.read_vertical_velocity_up(msg);
        self.vertical_velocity_up.update(up, now);
        let down: bool = self.gamepad.read_vertical_velocity_down(msg);
        self.vertical_velocity_down.update(down, now);
        proof {
            assert(*self =~= spec_controls_update(*old(self), *msg, now));
        }
    }

    pub fn strafe(&self) -> (r: Vec2Fix)
        ensures
            r == self.strafe,
    {
        self.strafe
    }

    pub fn rotate(&self) -> (r: Vec3Fix)
        ensures
            r == self.rotate,
    {
        self.rotate
    }

    /// Drains both vertical-velocity counters into one signed target
    /// delta of one fifth unit per press, in milli-units.
    pub fn get_and_reset_vertical_velocity_delta(&mut self) -> (r: i64)
        ensures
            r == 200 * (old(self).vertical_velocity_up.count - old(
                self,
            ).vertical_velocity_down.count),
            *final(self) == spec_controls_drained(*old(self)),
    {
        let up: u32 = self.vertical_velocity_up.get_and_reset();
        let down: u32 = self.vertical_velocity_down.get_and_reset();
        proof {
            assert(*self =~= spec_controls_drained(*old(self)));
        }
        200 * ((up as i64) - (down as i64))
    }

    pub fn get_reset_requested(&self) -> (r: bool)
        ensures
            r == (self.reset_button.count > 0),
    {
        self.reset_button.get() > 0
    }

    /// Resets all values and button-press state.
    pub fn hard_reset(&mut self)
        ensures
            *final(self) == spec_controls_reset(*old(self), true),
    {
        self.reset(true);
    }

    /// Resets all values, but retains button-press state.
    pub fn soft_reset(&mut self)
        ensures
            *final(self) == spec_controls_reset(*old(self), false),
    {
        self.reset(false);
    }

    fn reset(&mut self, hard: bool)
        ensures
            *final(self) == spec_controls_reset(*old(self), hard),
    {
        self.reset_button.reset(hard);
        self.strafe = Vec2Fix::zero();
        self.rotate = Vec3Fix::zero();
        self.vertical_velocity_up.reset(hard);
        self.vertical_velocity_down.reset(hard);
        proof {
            assert(*self =~= spec_controls_reset(*old(self), hard));
        }
    }
}

/// The control state after the vertical-velocity counters are drained:
/// both counts return to zero, everything else persists.
pub open spec fn spec_controls_drained(c: Controls) -> Controls {
    Controls {
        gamepad: c.gamepad,
        reset_button: c.reset_button,
        strafe: c.strafe,
        rotate: c.rotate,
        vertical_velocity_up: Button {
            pressed: c.vertical_velocity_up.pressed,
            count: 0,
            timeout: c.vertical_velocity_up.timeout,
            deadline: c.vertical_velocity_up.deadline,
        },
        vertical_velocity_down: Button {
            pressed: c.vertical_velocity_down.pressed,
            count: 0,
            timeout: c.vertical_velocity_down.timeout,
            deadline: c.vertical_velocity_down.deadline,
        },
    }
}

/// The common effect of a soft or a hard reset on the control state.
pub open spec fn spec_button_reset(b: Button, hard: bool) -> Button {
    Button {
        pressed: if hard {
            false
        } else {
            b.pressed
        },
        count: 0,
        timeout: b.timeout,
        deadline: if hard {
            None
        } else {
            b.deadline
        },
    }
}

pub open spec fn spec_controls_reset(c: Controls, hard: bool) -> Controls {
    Controls {
        gamepad: c.gamepad,
        reset_button: spec_button_reset(c.reset_button, hard),
        strafe: Vec2Fix { x: 0, y: 0 },
        rotate: Vec3Fix { x: 0, y: 0, z: 0 },
        vertical_velocity_up: spec_button_reset(c.vertical_velocity_up, hard),
        vertical_velocity_down: spec_button_reset(c.vertical_velocity_down, hard),
    }
}

} // verus!
