//! The lander: rigid-body state, the per-tick flight dynamics step, and
//! the measurements the landing evaluator scores.
//!
//! `step` advances the state by one fixed timestep, in this order:
//! throttle from the rate-of-descent controller and thrust along the
//! body's up axis while fuel remains, strafe from the RCS thrusters,
//! gravity, torque over the mass-scaled inertia, angular damping, and
//! finally the position and orientation integration. Every update is a
//! stated fixed-point formula; additions into the state saturate at the
//! representable range instead of overflowing.

use vstd::prelude::*;

verus! {

use crate::fixed::{
    SCALE,
    LIMIT,
    spec_mul_fix,
    spec_div_fix,
    spec_clamp,
    spec_add_sat,
    spec_isqrt,
    mul_fix_b,
    div_fix_b,
    clamp_fix,
    add_sat,
    isqrt,
};
use crate::geom::{
    Vec2Fix,
    Vec3Fix,
    QuatFix,
    spec_rotate_vec,
    rotate_vec,
    spec_from_euler,
    from_euler,
    spec_quat_mul,
    quat_mul,
    spec_quat_normalize,
    quat_normalize,
};
use crate::controller::{VerticalVelocityController, spec_pid_next, spec_compute_throttle};
use crate::input::Controls;
use crate::landing::{
    LandingCriterion,
    LandingReport,
    spec_first_problem,
    spec_total_score,
    spec_status,
    spec_remark_possible,
};
use crate::trig::{spec_acos, acos_fp, PI_FP};

/// Base mass for the apollo lander, in milli-kilograms.
pub const APOLLO_LANDER_DRY_MASS: i64 = 2_150_000;

/// The payload is the ascent stage and its fuel, in milli-kilograms.
pub const APOLLO_LANDER_PAYLOAD_MASS: i64 = 4_550_000;

/// Descent fuel on board at the start of a round, in milli-kilograms.
/// The simulation picks up the final approach, most descent fuel is
/// already spent.
pub const APOLLO_LANDER_INITIAL_FUEL_MASS: i64 = 600_000;

/// Main descent engine thrust, in milli-newtons.
pub const APOLLO_LANDER_DCS_THRUST: i64 = 45_000_000;

/// Descent fuel burn rate at full throttle, in milli-kilograms per second.
pub const APOLLO_LANDER_FUEL_BURN_RATE: i64 = 15_000;

/// RCS thrust for strafing, in milli-newtons: two of the sixteen 440 N
/// thrusters fire for any direction.
pub const APOLLO_LANDER_RCS_THRUST: i64 = 880_000;

/// RCS torque, in milli-newton-metres, estimating the thrusters at
/// about two metres from the centre of mass.
pub const APOLLO_LANDER_RCS_TORQUE: i64 = 3_700_000;

/// Moments of inertia per unit mass for a cylinder of the lander's
/// rough dimensions, in milli-units: `(3 r^2 + h^2) / 12` about the
/// horizontal axes and `r^2 / 2` about the vertical one.
pub const APOLLO_LANDER_INERTIA_X: i64 = 5_186;

pub const APOLLO_LANDER_INERTIA_Y: i64 = 5_186;

pub const APOLLO_LANDER_INERTIA_Z: i64 = 2_205;

/// Moon gravitational acceleration, in milli-metres per second squared.
pub const MOON_GRAVITY: i64 = -1_620;

/// Angular damping applied every tick, in milli-units: a gameplay
/// concession, not physically derived.
pub const ANGULAR_DAMPING: i64 = 999;

/// Landing threshold: vertical speed, milli-metres per second.
pub const MAX_VERTICAL_SPEED: i64 = 3_000;

/// Landing threshold: horizontal speed, milli-metres per second.
pub const MAX_HORIZONTAL_SPEED: i64 = 1_000;

/// Landing threshold: tilt from upright, milli-radians.
pub const MAX_TILT: i64 = 250;

/// Landing threshold: angular speed, milli-radians per second.
pub const MAX_ANGULAR_SPEED: i64 = 250;

/// The velocity change one force produces in one tick:
/// `dir * force / mass * dt`, each product in fixed point.
pub open spec fn spec_force_dv(dir: int, force: int, mass: int, dt: int) -> int {
    spec_mul_fix(spec_div_fix(spec_mul_fix(dir, force), mass), dt)
}

/// Executable form of `spec_force_dv`, with ghost bounds: the direction
/// within `md`, the divisor at least `mmin`.
fn force_dv(
    dir: i64,
    force: i64,
    mass: i64,
    dt: i64,
    Ghost(md): Ghost<int>,
    Ghost(mmin): Ghost<int>,
) -> (r: i64)
    requires
        0 <= md <= 100_000,
        -md <= dir <= md,
        0 < force <= LIMIT,
        0 < mmin <= mass,
        0 < dt <= SCALE,
    ensures
        r == spec_force_dv(dir as int, force as int, mass as int, dt as int),
        -((md * 1_000_000_000) / mmin) <= r <= (md * 1_000_000_000) / mmin,
{
    let f1: i64 = mul_fix_b(dir, force, Ghost(md), Ghost(LIMIT as int));
    let a: i64 = div_fix_b(f1, mass, Ghost(md * 1_000_000), Ghost(mmin));
    proof {
        assert(md * 1_000_000 * (SCALE as int) == md * 1_000_000_000) by (nonlinear_arith);
        vstd::arithmetic::div_mod::lemma_div_pos_is_pos((md * 1_000_000_000), mmin);
    }
    let dv: i64 = mul_fix_b(a, dt, Ghost((md * 1_000_000_000) / mmin), Ghost(SCALE as int));
    proof {
        vstd::arithmetic::div_mod::lemma_div_by_multiple((md * 1_000_000_000) / mmin, SCALE as int);
    }
    dv
}

/// The lander's rigid-body and controller state, all in milli-units.
#[derive(Clone, Debug)]
pub struct Lander {
    pub position: Vec3Fix,
    pub velocity: Vec3Fix,
    pub rotation: QuatFix,
    pub angular_velocity: Vec3Fix,
    pub dry_mass: i64,
    pub payload_mass: i64,
    pub fuel_mass: i64,
    pub dcs_thrust: i64,
    pub rcs_thrust: i64,
    pub rcs_torque: i64,
    pub landing_zone_radius: u32,
    pub rod: VerticalVelocityController,
}

/// The state after one timestep, as one fixed-point formula per field.
pub open spec fn spec_step(l: Lander, c: Controls, dt: int) -> Lander {
    let delta = 200 * (c.vertical_velocity_up.count - c.vertical_velocity_down.count);
    let target1 = spec_clamp(l.rod.target + delta, -(LIMIT as int), LIMIT as int) as i64;
    let rod0 = VerticalVelocityController { pid: l.rod.pid, target: target1, thrust: l.rod.thrust };
    let total_mass = l.dry_mass + l.payload_mass + l.fuel_mass;
    let up = spec_rotate_vec(l.rotation, Vec3Fix { x: 0, y: 0, z: SCALE });
    let cos_tilt = spec_clamp(up.z as int, -(SCALE as int), SCALE as int);
    let throttle = spec_compute_throttle(rod0, l.velocity.z as int, total_mass, cos_tilt, dt);
    let rod1 = if l.fuel_mass > 0 {
        VerticalVelocityController {
            pid: spec_pid_next(rod0.pid, target1 as int, l.velocity.z as int, dt),
            target: target1,
            thrust: l.rod.thrust,
        }
    } else {
        rod0
    };
    let v1 = if l.fuel_mass > 0 {
        Vec3Fix {
            x: spec_add_sat(
                l.velocity.x as int,
                spec_force_dv(
                    spec_mul_fix(up.x as int, throttle),
                    l.dcs_thrust as int,
                    total_mass,
                    dt,
                ),
            ) as i64,
            y: spec_add_sat(
                l.velocity.y as int,
                spec_force_dv(
                    spec_mul_fix(up.y as int, throttle),
                    l.dcs_thrust as int,
                    total_mass,
                    dt,
                ),
            ) as i64,
            z: spec_add_sat(
                l.velocity.z as int,
                spec_force_dv(
                    spec_mul_fix(up.z as int, throttle),
                    l.dcs_thrust as int,
                    total_mass,
                    dt,
                ),
            ) as i64,
        }
    } else {
        l.velocity
    };
    let fuel1 = if l.fuel_mass > 0 {
        let burn = spec_mul_fix(spec_mul_fix(throttle, APOLLO_LANDER_FUEL_BURN_RATE as int), dt);
        if burn > l.fuel_mass {
            0
        } else {
            (l.fuel_mass - burn) as i64
        }
    } else {
        l.fuel_mass
    };
    let sdir = spec_rotate_vec(l.rotation, Vec3Fix { x: c.strafe.x, y: c.strafe.y, z: 0 });
    let v2 = Vec3Fix {
        x: spec_add_sat(
            v1.x as int,
            spec_force_dv(sdir.x as int, l.rcs_thrust as int, total_mass, dt),
        ) as i64,
        y: spec_add_sat(
            v1.y as int,
            spec_force_dv(sdir.y as int, l.rcs_thrust as int, total_mass, dt),
        ) as i64,
        z: spec_add_sat(
            v1.z as int,
            spec_force_dv(sdir.z as int, l.rcs_thrust as int, total_mass, dt),
        ) as i64,
    };
    let v3 = Vec3Fix {
        x: v2.x,
        y: v2.y,
        z: spec_add_sat(v2.z as int, spec_mul_fix(MOON_GRAVITY as int, dt)) as i64,
    };
    let av1 = Vec3Fix {
        x: spec_add_sat(
            l.angular_velocity.x as int,
            spec_force_dv(
                c.rotate.x as int,
                l.rcs_torque as int,
                spec_mul_fix(total_mass, APOLLO_LANDER_INERTIA_X as int),
                dt,
            ),
        ) as i64,
        y: spec_add_sat(
            l.angular_velocity.y as int,
            spec_force_dv(
                c.rotate.y as int,
                l.rcs_torque as int,
                spec_mul_fix(total_mass, APOLLO_LANDER_INERTIA_Y as int),
                dt,
            ),
        ) as i64,
        z: spec_add_sat(
            l.angular_velocity.z as int,
            spec_force_dv(
                c.rotate.z as int,
                l.rcs_torque as int,
                spec_mul_fix(total_mass, APOLLO_LANDER_INERTIA_Z as int),
                dt,
            ),
        ) as i64,
    };
    let av2 = Vec3Fix {
        x: spec_mul_fix(av1.x as int, ANGULAR_DAMPING as int) as i64,
        y: spec_mul_fix(av1.y as int, ANGULAR_DAMPING as int) as i64,
        z: spec_mul_fix(av1.z as int, ANGULAR_DAMPING as int) as i64,
    };
    let p1 = Vec3Fix {
        x: spec_add_sat(l.position.x as int, spec_mul_fix(v3.x as int, dt)) as i64,
        y: spec_add_sat(l.position.y as int, spec_mul_fix(v3.y as int, dt)) as i64,
        z: spec_add_sat(l.position.z as int, spec_mul_fix(v3.z as int, dt)) as i64,
    };
    let inc = spec_from_euler(
        spec_mul_fix(av2.x as int, dt),
        spec_mul_fix(av2.y as int, dt),
        spec_mul_fix(av2.z as int, dt),
    );
    let rot1 = spec_quat_normalize(spec_quat_mul(l.rotation, inc));
    Lander {
        position: p1,
        velocity: v3,
        rotation: rot1,
        angular_velocity: av2,
        dry_mass: l.dry_mass,
        payload_mass: l.payload_mass,
        fuel_mass: fuel1,
        dcs_thrust: l.dcs_thrust,
        rcs_thrust: l.rcs_thrust,
        rcs_torque: l.rcs_torque,
        landing_zone_radius: l.landing_zone_radius,
        rod: rod1,
    }
}

impl Lander {
    pub open spec fn wf(self) -> bool {
        &&& self.position.wf()
        &&& self.velocity.wf()
        &&& self.angular_velocity.wf()
        &&& self.rotation.unit_wf()
        &&& SCALE <= self.dry_mass
        &&& 0 <= self.payload_mass
        &&& 0 <= self.fuel_mass
        &&& self.dry_mass + self.payload_mass + self.fuel_mass <= LIMIT
        &&& 0 < self.dcs_thrust <= LIMIT
        &&& 0 < self.rcs_thrust <= LIMIT
        &&& 0 < self.rcs_torque <= LIMIT
        &&& 1 <= self.landing_zone_radius <= 1_000_000
        &&& self.rod.wf()
    }

    /// A lander at the start of a round: at the given position, with
    /// the given initial descent rate and rate target, upright and
    /// fully fuelled.
    pub fn new(
        position: Vec3Fix,
        init_vertical_velocity: i64,
        init_vertical_velocity_target: i64,
        landing_zone_radius: u32,
    ) -> (r: Lander)
        requires
            position.wf(),
            -LIMIT <= init_vertical_velocity <= LIMIT,
            -LIMIT <= init_vertical_velocity_target <= LIMIT,
            1 <= landing_zone_radius <= 1_000_000,
        ensures
            r.position == position,
            r.velocity == (Vec3Fix { x: 0, y: 0, z: init_vertical_velocity }),
            r.rotation == (QuatFix { x: 0, y: 0, z: 0, w: SCALE }),
            r.angular_velocity == (Vec3Fix { x: 0, y: 0, z: 0 }),
            r.dry_mass == APOLLO_LANDER_DRY_MASS,
            r.payload_mass == APOLLO_LANDER_PAYLOAD_MASS,
            r.fuel_mass == APOLLO_LANDER_INITIAL_FUEL_MASS,
            r.dcs_thrust == APOLLO_LANDER_DCS_THRUST,
            r.rcs_thrust == APOLLO_LANDER_RCS_THRUST,
            r.rcs_torque == APOLLO_LANDER_RCS_TORQUE,
            r.landing_zone_radius == landing_zone_radius,
            r.rod == VerticalVelocityController::spec_new(
                init_vertical_velocity_target,
                APOLLO_LANDER_DCS_THRUST,
            ),
            r.wf(),
    {
        Lander {
            position,
            velocity: Vec3Fix { x: 0, y: 0, z: init_vertical_velocity },
            rotation: QuatFix::identity(),
            angular_velocity: Vec3Fix::zero(),
            dry_mass: APOLLO_LANDER_DRY_MASS,
            payload_mass: APOLLO_LANDER_PAYLOAD_MASS,
            fuel_mass: APOLLO_LANDER_INITIAL_FUEL_MASS,
            dcs_thrust: APOLLO_LANDER_DCS_THRUST,
            rcs_thrust: APOLLO_LANDER_RCS_THRUST,
            rcs_torque: APOLLO_LANDER_RCS_TORQUE,
            landing_zone_radius,
            rod: VerticalVelocityController::new(
                init_vertical_velocity_target,
                APOLLO_LANDER_DCS_THRUST,
            ),
        }
    }

    /// Freezes the craft for the post-landing display: velocities are
    /// zeroed, position and orientation stay.
    pub fn stop(&mut self)
        ensures
            final(self).velocity == (Vec3Fix { x: 0, y: 0, z: 0 }),
            final(self).angular_velocity == (Vec3Fix { x: 0, y: 0, z: 0 }),
            final(self).position == old(self).position,
            final(self).rotation == old(self).rotation,
            final(self).fuel_mass == old(self).fuel_mass,
            final(self).rod == old(self).rod,
            final(self).dry_mass == old(self).dry_mass,
            final(self).payload_mass == old(self).payload_mass,
            final(self).dcs_thrust == old(self).dcs_thrust,
            final(self).rcs_thrust == old(self).rcs_thrust,
            final(self).rcs_torque == old(self).rcs_torque,
            final(self).landing_zone_radius == old(self).landing_zone_radius,
            old(self).wf() ==> final(self).wf(),
    {
        self.velocity = Vec3Fix::zero();
        self.angular_velocity = Vec3Fix::zero();
    }

    /// The craft has reached ground level.
    pub fn has_landed(&self) -> (r: bool)
        ensures
            r == (self.position.z <= 0),
    {
        self.position.z <= 0
    }

    /// Advances the state by one timestep, draining the operator's
    /// vertical-velocity presses from the controls.
    #[verifier::rlimit(100)]
    pub fn step(&mut self, dt: i64, controls: &mut Controls)
        requires
            old(self).wf(),
            0 < dt <= SCALE,
            old(controls).in_range(),
        ensures
            *final(self) == spec_step(*old(self), *old(controls), dt as int),
            final(self).wf(),
            0 <= final(self).fuel_mass <= old(self).fuel_mass,
            *final(controls) == crate::input::spec_controls_drained(*old(controls)),
    {
        let ghost l0 = *self;
        let ghost c0 = *controls;
        // Update the target rate of descent from the operator's presses.
        let delta: i64 = controls.get_and_reset_vertical_velocity_delta();
        self.rod.adjust_target(delta);
        let total_mass: i64 = self.dry_mass + self.payload_mass + self.fuel_mass;
        let up: Vec3Fix = rotate_vec(self.rotation, Vec3Fix { x: 0, y: 0, z: SCALE });
        if self.fuel_mass > 0 {
            // Use the rate-of-descent controller to compute throttle;
            // the up axis' vertical component is the tilt cosine.
            let cos_tilt: i64 = clamp_fix(up.z, -SCALE, SCALE);
            let vz: i64 = self.velocity.z;
            let throttle: i64 = self.rod.compute_throttle(vz, total_mass, cos_tilt, dt);
            // Apply throttle along the body's up axis.
            let dx: i64 = mul_fix_b(up.x, throttle, Ghost(98_000), Ghost(SCALE as int));
            let dy: i64 = mul_fix_b(up.y, throttle, Ghost(98_000), Ghost(SCALE as int));
            let dz: i64 = mul_fix_b(up.z, throttle, Ghost(98_000), Ghost(SCALE as int));
            let dvx: i64 = force_dv(dx, self.dcs_thrust, total_mass, dt, Ghost(98_000), Ghost(1_000));
            let dvy: i64 = force_dv(dy, self.dcs_thrust, total_mass, dt, Ghost(98_000), Ghost(1_000));
            let dvz: i64 = force_dv(dz, self.dcs_thrust, total_mass, dt, Ghost(98_000), Ghost(1_000));
            self.velocity = Vec3Fix {
                x: add_sat(self.velocity.x, dvx),
                y: add_sat(self.velocity.y, dvy),
                z: add_sat(self.velocity.z, dvz),
            };
            // Consume fuel, floored at empty.
            let rate: i64 = mul_fix_b(
                throttle,
                APOLLO_LANDER_FUEL_BURN_RATE,
                Ghost(SCALE as int),
                Ghost(APOLLO_LANDER_FUEL_BURN_RATE as int),
            );
            let burn: i64 = mul_fix_b(rate, dt, Ghost(15_000), Ghost(SCALE as int));
            self.fuel_mass = if burn > self.fuel_mass {
                0
            } else {
                self.fuel_mass - burn
            };
        }
        // Apply strafe through the RCS thrusters.
        let strafe: Vec2Fix = controls.strafe();
        let sdir: Vec3Fix = rotate_vec(self.rotation, Vec3Fix { x: strafe.x, y: strafe.y, z: 0 });
        let svx: i64 = force_dv(sdir.x, self.rcs_thrust, total_mass, dt, Ghost(98_000), Ghost(1_000));
        let svy: i64 = force_dv(sdir.y, self.rcs_thrust, total_mass, dt, Ghost(98_000), Ghost(1_000));
        let svz: i64 = force_dv(sdir.z, self.rcs_thrust, total_mass, dt, Ghost(98_000), Ghost(1_000));
        self.velocity = Vec3Fix {
            x: add_sat(self.velocity.x, svx),
            y: add_sat(self.velocity.y, svy),
            z: add_sat(self.velocity.z, svz),
        };
        // Apply gravity.
        let gdz: i64 = mul_fix_b(MOON_GRAVITY, dt, Ghost(1_620), Ghost(SCALE as int));
        self.velocity = Vec3Fix {
            x: self.velocity.x,
            y: self.velocity.y,
            z: add_sat(self.velocity.z, gdz),
        };
        // Apply torque over the mass-scaled inertia.
        let rotate: Vec3Fix = controls.rotate();
        let ix: i64 = inertia_about(total_mass, APOLLO_LANDER_INERTIA_X);
        let iy: i64 = inertia_about(total_mass, APOLLO_LANDER_INERTIA_Y);
        let iz: i64 = inertia_about(total_mass, APOLLO_LANDER_INERTIA_Z);
        let tvx: i64 = force_dv(rotate.x, self.rcs_torque, ix, dt, Ghost(SCALE as int), Ghost(2_205));
        let tvy: i64 = force_dv(rotate.y, self.rcs_torque, iy, dt, Ghost(SCALE as int), Ghost(2_205));
        let tvz: i64 = force_dv(rotate.z, self.rcs_torque, iz, dt, Ghost(SCALE as int), Ghost(2_205));
        // Dampen rotational velocity to make gameplay a bit easier.
        self.angular_velocity = Vec3Fix {
            x: mul_fix_b(
                add_sat(self.angular_velocity.x, tvx),
                ANGULAR_DAMPING,
                Ghost(LIMIT as int),
                Ghost(ANGULAR_DAMPING as int),
            ),
            y: mul_fix_b(
                add_sat(self.angular_velocity.y, tvy),
                ANGULAR_DAMPING,
                Ghost(LIMIT as int),
                Ghost(ANGULAR_DAMPING as int),
            ),
            z: mul_fix_b(
                add_sat(self.angular_velocity.z, tvz),
                ANGULAR_DAMPING,
                Ghost(LIMIT as int),
                Ghost(ANGULAR_DAMPING as int),
            ),
        };
        // Update position and orientation.
        self.position = Vec3Fix {
            x: add_sat(
                self.position.x,
                mul_fix_b(self.velocity.x, dt, Ghost(LIMIT as int), Ghost(SCALE as int)),
            ),
            y: add_sat(
                self.position.y,
                mul_fix_b(self.velocity.y, dt, Ghost(LIMIT as int), Ghost(SCALE as int)),
            ),
            z: add_sat(
                self.position.z,
                mul_fix_b(self.velocity.z, dt, Ghost(LIMIT as int), Ghost(SCALE as int)),
            ),
        };
        let inc: QuatFix = from_euler(
            mul_fix_b(self.angular_velocity.x, dt, Ghost(LIMIT as int), Ghost(SCALE as int)),
            mul_fix_b(self.angular_velocity.y, dt, Ghost(LIMIT as int), Ghost(SCALE as int)),
            mul_fix_b(self.angular_velocity.z, dt, Ghost(LIMIT as int), Ghost(SCALE as int)),
        );
        let composed: QuatFix = quat_mul(self.rotation, inc, Ghost(SCALE as int), Ghost(80_000));
        self.rotation = quat_normalize(composed);
        proof {
            assert(*self == spec_step(l0, c0, dt as int));
        }
    }
}

/// The magnitude of the vertical velocity, in milli-metres per second.
pub open spec fn spec_vertical_speed(l: Lander) -> int {
    if l.velocity.z < 0 {
        -(l.velocity.z as int)
    } else {
        l.velocity.z as int
    }
}

/// The planar speed: the integer norm of the horizontal velocity.
pub open spec fn spec_horizontal_speed(l: Lander) -> int {
    spec_clamp(
        spec_isqrt(l.velocity.x * l.velocity.x + l.velocity.y * l.velocity.y),
        0,
        LIMIT as int,
    )
}

/// The vertical component of the craft's rotated up axis: the cosine of
/// its tilt from upright, for a unit orientation.
pub open spec fn spec_cos_tilt(l: Lander) -> int {
    spec_clamp(
        spec_rotate_vec(l.rotation, Vec3Fix { x: 0, y: 0, z: SCALE }).z as int,
        -(SCALE as int),
        SCALE as int,
    )
}

/// The tilt from upright, in milli-radians.
pub open spec fn spec_tilt(l: Lander) -> int {
    spec_acos(spec_cos_tilt(l))
}

/// The integer norm of the angular velocity.
pub open spec fn spec_angular_speed(l: Lander) -> int {
    spec_clamp(
        spec_isqrt(
            l.angular_velocity.x * l.angular_velocity.x + l.angular_velocity.y
                * l.angular_velocity.y + l.angular_velocity.z * l.angular_velocity.z,
        ),
        0,
        LIMIT as int,
    )
}

/// The planar distance from the landing-zone centre: the integer norm
/// of the horizontal position, which lives in the landing zone's
/// frame. How far below pad level the craft came to rest does not
/// count against it.
pub open spec fn spec_distance_from_landing_zone(l: Lander) -> int {
    spec_clamp(
        spec_isqrt(l.position.x * l.position.x + l.position.y * l.position.y),
        0,
        LIMIT as int,
    )
}

/// The five landing criteria, in priority order.
pub open spec fn spec_landing_criteria(l: Lander) -> Seq<LandingCriterion> {
    seq![
        LandingCriterion {
            kind: crate::landing::LandingCriterionType::VerticalSpeed,
            max: MAX_VERTICAL_SPEED,
            actual: spec_vertical_speed(l) as i64,
        },
        LandingCriterion {
            kind: crate::landing::LandingCriterionType::HorizontalSpeed,
            max: MAX_HORIZONTAL_SPEED,
            actual: spec_horizontal_speed(l) as i64,
        },
        LandingCriterion {
            kind: crate::landing::LandingCriterionType::Tilt,
            max: MAX_TILT,
            actual: spec_tilt(l) as i64,
        },
        LandingCriterion {
            kind: crate::landing::LandingCriterionType::AngularSpeed,
            max: MAX_ANGULAR_SPEED,
            actual: spec_angular_speed(l) as i64,
        },
        LandingCriterion {
            kind: crate::landing::LandingCriterionType::DistanceFromTarget,
            max: (l.landing_zone_radius * SCALE) as i64,
            actual: spec_distance_from_landing_zone(l) as i64,
        },
    ]
}

/// A square of a state component, non-negative and small enough that
/// three of them sum within the square-root routine's domain.
fn sq(a: i64) -> (r: i64)
    requires
        -LIMIT <= a <= LIMIT,
    ensures
        r == a * a,
        0 <= r <= 1_000_000_000_000_000_000,
{
    proof {
        assert(0 <= a * a <= 1_000_000_000_000_000_000) by (nonlinear_arith)
            requires
                -LIMIT <= a <= LIMIT,
                LIMIT == 1_000_000_000,
        ;
    }
    a * a
}

impl Lander {
    /// Vertical speed in milli-metres per second.
    pub fn vertical_speed(&self) -> (r: i64)
        requires
            self.wf(),
        ensures
            r == spec_vertical_speed(*self),
            0 <= r <= LIMIT,
    {
        if self.velocity.z < 0 {
            -self.velocity.z
        } else {
            self.velocity.z
        }
    }

    /// Horizontal speed in milli-metres per second.
    pub fn horizontal_speed(&self) -> (r: i64)
        requires
            self.wf(),
        ensures
            r == spec_horizontal_speed(*self),
            0 <= r <= LIMIT,
    {
        let s: i64 = sq(self.velocity.x) + sq(self.velocity.y);
        let n: u64 = isqrt(s as u64);
        clamp_fix(n as i64, 0, LIMIT)
    }

    /// Tilt from upright in milli-radians.
    pub fn tilt(&self) -> (r: i64)
        requires
            self.wf(),
        ensures
            r == spec_tilt(*self),
            0 <= r <= PI_FP,
    {
        let up: Vec3Fix = rotate_vec(self.rotation, Vec3Fix { x: 0, y: 0, z: SCALE });
        let cos_tilt: i64 = clamp_fix(up.z, -SCALE, SCALE);
        acos_fp(cos_tilt)
    }

    /// Angular speed in milli-radians per second.
    pub fn angular_speed(&self) -> (r: i64)
        requires
            self.wf(),
        ensures
            r == spec_angular_speed(*self),
            0 <= r <= LIMIT,
    {
        let s: i64 = sq(self.angular_velocity.x) + sq(self.angular_velocity.y) + sq(
            self.angular_velocity.z,
        );
        let n: u64 = isqrt(s as u64);
        clamp_fix(n as i64, 0, LIMIT)
    }

    /// Planar distance from the landing-zone centre in milli-metres.
    pub fn distance_from_landing_zone(&self) -> (r: i64)
        requires
            self.wf(),
        ensures
            r == spec_distance_from_landing_zone(*self),
            0 <= r <= LIMIT,
    {
        let s: i64 = sq(self.position.x) + sq(self.position.y);
        let n: u64 = isqrt(s as u64);
        clamp_fix(n as i64, 0, LIMIT)
    }

    /// The five landing criteria in priority order, with their
    /// thresholds and the measured final values.
    pub fn landing_criteria(&self) -> (r: Vec<LandingCriterion>)
        requires
            self.wf(),
        ensures
            r@ == spec_landing_criteria(*self),
            r@.len() == 5,
            forall|i: int| 0 <= i < r@.len() ==> #[trigger] r@[i].wf(),
    {
        let mut v: Vec<LandingCriterion> = Vec::new();
        v.push(LandingCriterion::vertical_speed(MAX_VERTICAL_SPEED, self.vertical_speed()));
        v.push(LandingCriterion::horizontal_speed(MAX_HORIZONTAL_SPEED, self.horizontal_speed()));
        v.push(LandingCriterion::tilt(MAX_TILT, self.tilt()));
        v.push(LandingCriterion::angular_speed(MAX_ANGULAR_SPEED, self.angular_speed()));
        v.push(
            LandingCriterion::distance_from_target(
                (self.landing_zone_radius as i64) * SCALE,
                self.distance_from_landing_zone(),
            ),
        );
        proof {
            assert(v@ =~= spec_landing_criteria(*self));
        }
        v
    }

    /// The landing report, once the craft has reached the ground:
    /// the classification and score are functions of the final state
    /// alone, the remark draws among equivalent phrasings.
    pub fn landing_report(&self) -> (r: Option<LandingReport>)
        requires
            self.wf(),
        ensures
            r is Some <==> self.position.z <= 0,
            r matches Some(rep) ==> {
                &&& rep.status == spec_status(spec_first_problem(spec_landing_criteria(*self)))
                &&& rep.score == spec_total_score(spec_landing_criteria(*self))
                &&& rep.criteria@ == spec_landing_criteria(*self)
                &&& spec_remark_possible(
                    spec_first_problem(spec_landing_criteria(*self)),
                    rep.remark@,
                )
                &&& rep.wf()
            },
    {
        if !self.has_landed() {
            return None;
        }
        let criteria: Vec<LandingCriterion> = self.landing_criteria();
        Some(LandingReport::new(criteria))
    }
}

/// With the tanks dry and no strafe command, one step changes the
/// vertical velocity by exactly the gravity increment, and the other
/// velocity components not at all: gravity integration is independent
/// of the other, zero-magnitude terms.
pub proof fn lemma_step_gravity_exact(l: Lander, c: Controls, dt: int)
    requires
        l.wf(),
        0 < dt <= SCALE as int,
        l.fuel_mass == 0,
        c.strafe.x == 0,
        c.strafe.y == 0,
        -(LIMIT as int) <= l.velocity.z + spec_mul_fix(MOON_GRAVITY as int, dt) <= LIMIT as int,
    ensures
        spec_step(l, c, dt).velocity.z == l.velocity.z + spec_mul_fix(MOON_GRAVITY as int, dt),
        spec_step(l, c, dt).velocity.x == l.velocity.x,
        spec_step(l, c, dt).velocity.y == l.velocity.y,
{
    let total_mass = l.dry_mass + l.payload_mass + l.fuel_mass;
    crate::fixed::lemma_fix_zero(0, total_mass);
    let zero3 = Vec3Fix { x: 0, y: 0, z: 0 };
    assert(spec_rotate_vec(l.rotation, zero3) == zero3) by {
        crate::fixed::lemma_fix_zero(l.rotation.x as int, SCALE as int);
        crate::fixed::lemma_fix_zero(l.rotation.y as int, SCALE as int);
        crate::fixed::lemma_fix_zero(l.rotation.z as int, SCALE as int);
        crate::fixed::lemma_fix_zero(l.rotation.w as int, SCALE as int);
    }
    let sdir = spec_rotate_vec(l.rotation, Vec3Fix { x: c.strafe.x, y: c.strafe.y, z: 0 });
    assert(sdir == zero3);
    assert(spec_force_dv(0, l.rcs_thrust as int, total_mass, dt) == 0) by {
        crate::fixed::lemma_fix_zero(l.rcs_thrust as int, total_mass);
        crate::fixed::lemma_fix_zero(dt, total_mass);
    }
}

/// Fuel never rises through a step, and never goes below zero: once
/// the throttled burn would exceed what remains, the tank empties
/// exactly.
pub proof fn lemma_step_fuel_monotone(l: Lander, c: Controls, dt: int)
    requires
        0 <= l.fuel_mass,
        0 <= dt,
    ensures
        0 <= spec_step(l, c, dt).fuel_mass <= l.fuel_mass,
{
    if l.fuel_mass > 0 {
        let delta = 200 * (c.vertical_velocity_up.count - c.vertical_velocity_down.count);
        let target1 = spec_clamp(l.rod.target + delta, -(LIMIT as int), LIMIT as int) as i64;
        let rod0 = VerticalVelocityController {
            pid: l.rod.pid,
            target: target1,
            thrust: l.rod.thrust,
        };
        let total_mass = l.dry_mass + l.payload_mass + l.fuel_mass;
        let up = spec_rotate_vec(l.rotation, Vec3Fix { x: 0, y: 0, z: SCALE });
        let cos_tilt = spec_clamp(up.z as int, -(SCALE as int), SCALE as int);
        let throttle = spec_compute_throttle(rod0, l.velocity.z as int, total_mass, cos_tilt, dt);
        assert(0 <= throttle <= SCALE as int);
        let m1 = spec_mul_fix(throttle, APOLLO_LANDER_FUEL_BURN_RATE as int);
        assert(0 <= throttle * (APOLLO_LANDER_FUEL_BURN_RATE as int)) by (nonlinear_arith)
            requires
                0 <= throttle,
        ;
        vstd::arithmetic::div_mod::lemma_div_pos_is_pos(
            throttle * (APOLLO_LANDER_FUEL_BURN_RATE as int),
            SCALE as int,
        );
        assert(0 <= m1 * dt) by (nonlinear_arith)
            requires
                0 <= m1,
                0 <= dt,
        ;
        vstd::arithmetic::div_mod::lemma_div_pos_is_pos(m1 * dt, SCALE as int);
    }
}

/// A whole round: the state folded through a sequence of steps, each
/// with its control snapshot and timestep.
pub open spec fn spec_run(l: Lander, inputs: Seq<(Controls, int)>) -> Lander
    decreases inputs.len(),
{
    if inputs.len() == 0 {
        l
    } else {
        spec_run(spec_step(l, inputs[0].0, inputs[0].1), inputs.drop_first())
    }
}

/// Fuel mass is monotonically non-increasing across any sequence of
/// steps, and never goes below zero.
pub proof fn lemma_run_fuel_monotone(l: Lander, inputs: Seq<(Controls, int)>)
    requires
        0 <= l.fuel_mass,
        forall|i: int| 0 <= i < inputs.len() ==> #[trigger] inputs[i].1 >= 0,
    ensures
        0 <= spec_run(l, inputs).fuel_mass <= l.fuel_mass,
    decreases inputs.len(),
{
    if inputs.len() > 0 {
        lemma_step_fuel_monotone(l, inputs[0].0, inputs[0].1);
        let l1 = spec_step(l, inputs[0].0, inputs[0].1);
        let rest = inputs.drop_first();
        assert forall|i: int| 0 <= i < rest.len() implies #[trigger] rest[i].1 >= 0 by {
            assert(rest[i] == inputs[i + 1]);
        }
        lemma_run_fuel_monotone(l1, rest);
    }
}

/// The moment of inertia about one axis: the total mass scaled by the
/// per-unit-mass profile, in fixed point. Positive for a craft of at
/// least unit mass.
fn inertia_about(total_mass: i64, profile: i64) -> (r: i64)
    requires
        SCALE <= total_mass <= LIMIT,
        2_205 <= profile <= 5_186,
    ensures
        r == spec_mul_fix(total_mass as int, profile as int),
        2_205 <= r <= 5_186_000_000,
{
    proof {
        assert((SCALE as int) * 2_205 <= total_mass * profile) by (nonlinear_arith)
            requires
                SCALE <= total_mass,
                2_205 <= profile,
        ;
        vstd::arithmetic::div_mod::lemma_div_is_ordered(
            (SCALE as int) * 2_205,
            total_mass as int * profile as int,
            SCALE as int,
        );
        vstd::arithmetic::div_mod::lemma_div_multiples_vanish(2_205, SCALE as int);
    }
    mul_fix_b(total_mass, profile, Ghost(LIMIT as int), Ghost(5_186))
}

} // verus!
