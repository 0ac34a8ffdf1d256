//! The rate-of-descent controller: a PID loop that converts a target
//! vertical velocity and the current one into a throttle fraction,
//! compensating for the craft's mass and tilt.

use vstd::prelude::*;

verus! {

use crate::fixed::{
    SCALE,
    LIMIT,
    spec_mul_fix,
    spec_div_fix,
    spec_clamp,
    mul_fix,
    div_fix,
    clamp_fix,
    lemma_mul_fix_bound,
    lemma_div_trunc_bound,
};
use crate::lander::MOON_GRAVITY;

/// Saturation bound for the PID integral accumulator. The controller
/// has no windup guard by design, so the accumulator is free to grow;
/// it merely stops at the machine's representable range.
pub const ACCUMULATOR_LIMIT: i64 = 100_000_000_000_000;

/// Upper bound on the configured gains, in milli-units.
pub const GAIN_LIMIT: i64 = 10_000;

/// Magnitude bound on one PID output, implied by the state bounds.
pub const OUTPUT_LIMIT: i64 = 2_000_000_000_000_000;

/// Generic PID controller over milli-scaled values.
#[derive(Clone, Copy, Debug)]
pub struct PidController {
    pub kp: i64,
    pub ki: i64,
    pub kd: i64,
    pub prev_error: i64,
    pub integral: i64,
}

impl PidController {
    pub open spec fn wf(self) -> bool {
        &&& 0 <= self.kp <= GAIN_LIMIT
        &&& 0 <= self.ki <= GAIN_LIMIT
        &&& 0 <= self.kd <= GAIN_LIMIT
        &&& -2 * LIMIT <= self.prev_error <= 2 * LIMIT
        &&& -ACCUMULATOR_LIMIT <= self.integral <= ACCUMULATOR_LIMIT
    }

    /// Creates a new PID controller.
    pub fn new(kp: i64, ki: i64, kd: i64) -> (r: PidController)
        requires
            0 <= kp <= GAIN_LIMIT,
            0 <= ki <= GAIN_LIMIT,
            0 <= kd <= GAIN_LIMIT,
        ensures
            r == (PidController { kp, ki, kd, prev_error: 0, integral: 0 }),
            r.wf(),
    {
        PidController { kp, ki, kd, prev_error: 0, integral: 0 }
    }

    /// Calculates error and returns a control value.
    pub fn update(&mut self, setpoint: i64, measured: i64, dt: i64) -> (r: i64)
        requires
            old(self).wf(),
            -LIMIT <= setpoint <= LIMIT,
            -LIMIT <= measured <= LIMIT,
            0 < dt <= SCALE,
        ensures
            *final(self) == spec_pid_next(*old(self), setpoint as int, measured as int, dt as int),
            r == spec_pid_output(*old(self), setpoint as int, measured as int, dt as int),
            final(self).wf(),
            -OUTPUT_LIMIT <= r <= OUTPUT_LIMIT,
    {
        let ghost p0 = *self;
        let error: i64 = setpoint - measured;
        proof {
            lemma_mul_fix_bound(error as int, dt as int, 2 * LIMIT as int, SCALE as int);
        }
        let di: i64 = mul_fix(error, dt);
        self.integral = clamp_fix(self.integral + di, -ACCUMULATOR_LIMIT, ACCUMULATOR_LIMIT);
        proof {
            lemma_div_trunc_bound(
                (error - p0.prev_error) * SCALE,
                dt as int,
                4 * (LIMIT as int) * (SCALE as int),
            );
            vstd::arithmetic::div_mod::lemma_div_nonincreasing(
                4 * (LIMIT as int) * (SCALE as int),
                dt as int,
            );
        }
        let derivative: i64 = div_fix(error - self.prev_error, dt);
        self.prev_error = error;
        proof {
            lemma_mul_fix_bound(p0.kp as int, error as int, GAIN_LIMIT as int, 2 * LIMIT as int);
            lemma_mul_fix_bound(
                p0.ki as int,
                self.integral as int,
                GAIN_LIMIT as int,
                ACCUMULATOR_LIMIT as int,
            );
            lemma_mul_fix_bound(
                p0.kd as int,
                derivative as int,
                GAIN_LIMIT as int,
                4 * (LIMIT as int) * (SCALE as int),
            );
        }
        let p_term: i64 = mul_fix(self.kp, error);
        let i_term: i64 = mul_fix(self.ki, self.integral);
        let d_term: i64 = mul_fix(self.kd, derivative);
        p_term + i_term + d_term
    }
}

/// The PID state after one update: the error is remembered for the
/// derivative term and the integral accumulates `error * dt`,
/// saturating at the representable bound.
pub open spec fn spec_pid_next(p: PidController, setpoint: int, measured: int, dt: int)
    -> PidController {
    let error = setpoint - measured;
    PidController {
        kp: p.kp,
        ki: p.ki,
        kd: p.kd,
        prev_error: error as i64,
        integral: spec_clamp(
            p.integral + spec_mul_fix(error, dt),
            -ACCUMULATOR_LIMIT as int,
            ACCUMULATOR_LIMIT as int,
        ) as i64,
    }
}

/// One PID output: `kp * error + ki * integral + kd * derivative`, over
/// the updated integral and the backward-difference derivative.
pub open spec fn spec_pid_output(p: PidController, setpoint: int, measured: int, dt: int) -> int {
    let error = setpoint - measured;
    let next = spec_pid_next(p, setpoint, measured, dt);
    let derivative = spec_div_fix(error - p.prev_error, dt);
    spec_mul_fix(p.kp as int, error) + spec_mul_fix(p.ki as int, next.integral as int)
        + spec_mul_fix(p.kd as int, derivative)
}

/// Vertical velocity controller.
///
/// Modelled on a rate-of-descent controller: the operator adjusts a
/// target vertical velocity, and the controller converts the error into
/// a throttle fraction.
#[derive(Clone, Copy, Debug)]
pub struct VerticalVelocityController {
    pub pid: PidController,
    pub target: i64,
    pub thrust: i64,
}

/// Default proportional gain (0.8).
pub const ROD_KP: i64 = 800;

/// Default integral gain (0.05).
pub const ROD_KI: i64 = 50;

/// Default derivative gain (0.3).
pub const ROD_KD: i64 = 300;

impl VerticalVelocityController {
    /// The controller state `new` builds.
    pub open spec fn spec_new(target: i64, thrust: i64) -> VerticalVelocityController {
        VerticalVelocityController {
            pid: PidController { kp: ROD_KP, ki: ROD_KI, kd: ROD_KD, prev_error: 0, integral: 0 },
            target,
            thrust,
        }
    }

    pub open spec fn wf(self) -> bool {
        &&& self.pid.wf()
        &&& -LIMIT <= self.target <= LIMIT
        &&& 0 < self.thrust <= LIMIT
    }

    /// Creates a new vertical velocity controller.
    pub fn new(target: i64, thrust: i64) -> (r: VerticalVelocityController)
        requires
            -LIMIT <= target <= LIMIT,
            0 < thrust <= LIMIT,
        ensures
            r == (VerticalVelocityController {
                pid: PidController { kp: ROD_KP, ki: ROD_KI, kd: ROD_KD, prev_error: 0, integral: 0 },
                target,
                thrust,
            }),
            r.wf(),
    {
        VerticalVelocityController { pid: PidController::new(ROD_KP, ROD_KI, ROD_KD), target, thrust }
    }

    /// Returns the target vertical velocity.
    pub fn target(&self) -> (r: i64)
        ensures
            r == self.target,
    {
        self.target
    }

    /// Updates the target vertical velocity by an operator delta,
    /// saturating at the representable state range.
    pub fn adjust_target(&mut self, delta: i64)
        ensures
            final(self).target == spec_clamp(
                old(self).target + delta,
                -LIMIT as int,
                LIMIT as int,
            ),
            final(self).pid == old(self).pid,
            final(self).thrust == old(self).thrust,
    {
        let moved: i64 = match self.target.checked_add(delta) {
            Some(s) => s,
            None => if delta > 0 {
                i64::MAX
            } else {
                i64::MIN
            },
        };
        self.target = clamp_fix(moved, -LIMIT, LIMIT);
    }

    /// Calculates error, and returns a throttle fraction in `[0, SCALE]`.
    ///
    /// The caller passes the cosine of the craft's tilt from vertical;
    /// the required force is scaled by it so that a tilted craft burns
    /// harder to hold the same descent rate. When that thrust component
    /// vanishes or reverses, the throttle saturates instead of dividing
    /// by a vanishing denominator.
    pub fn compute_throttle(&mut self, current: i64, mass: i64, cos_tilt: i64, dt: i64) -> (r: i64)
        requires
            old(self).wf(),
            -LIMIT <= current <= LIMIT,
            0 < mass <= LIMIT,
            -SCALE <= cos_tilt <= SCALE,
            0 < dt <= SCALE,
        ensures
            r == spec_compute_throttle(*old(self), current as int, mass as int, cos_tilt as int, dt as int),
            0 <= r <= SCALE,
            final(self).pid == spec_pid_next(
                old(self).pid,
                old(self).target as int,
                current as int,
                dt as int,
            ),
            final(self).target == old(self).target,
            final(self).thrust == old(self).thrust,
            final(self).wf(),
    {
        let target: i64 = self.target;
        let desired_accel: i64 = self.pid.update(target, current, dt);
        let accel: i64 = clamp_fix(desired_accel, -LIMIT, LIMIT);
        let total_accel: i64 = MOON_GRAVITY + accel;
        proof {
            lemma_mul_fix_bound(
                mass as int,
                total_accel as int,
                LIMIT as int,
                LIMIT as int + 1620,
            );
            lemma_mul_fix_bound(
                old(self).thrust as int,
                cos_tilt as int,
                LIMIT as int,
                SCALE as int,
            );
        }
        let required_force: i64 = mul_fix(mass, total_accel);
        let denom: i64 = mul_fix(self.thrust, cos_tilt);
        if denom <= 0 {
            if required_force > 0 {
                SCALE
            } else {
                0
            }
        } else {
            let raw: i64 = div_fix(required_force, denom);
            clamp_fix(raw, 0, SCALE)
        }
    }
}

/// The throttle computed from one controller state: the PID output,
/// saturated into the state range, turned into a required force and
/// scaled by the available vertical thrust component, clamped to
/// `[0, SCALE]`.
pub open spec fn spec_compute_throttle(
    c: VerticalVelocityController,
    current: int,
    mass: int,
    cos_tilt: int,
    dt: int,
) -> int {
    let desired_accel = spec_pid_output(c.pid, c.target as int, current, dt);
    let accel = spec_clamp(desired_accel, -LIMIT as int, LIMIT as int);
    let total_accel = MOON_GRAVITY + accel;
    let required_force = spec_mul_fix(mass, total_accel);
    let denom = spec_mul_fix(c.thrust as int, cos_tilt);
    if denom <= 0 {
        if required_force > 0 {
            SCALE as int
        } else {
            0
        }
    } else {
        spec_clamp(spec_div_fix(required_force, denom), 0, SCALE as int)
    }
}

} // verus!
