//! The round-start parameter registry: the numeric knobs a round reads,
//! with the clamp policy each one carries.
//!
//! A clamp policy is a tagged variant rather than a stored closure: a
//! fixed range, a range derived from the landscape width, or none.
//! Updates are resolved in two phases, as a batch: every new value is
//! clamped against the registry as it stood before the batch, then all
//! of them are applied in order.

use vstd::prelude::*;

verus! {

use crate::fixed::{SCALE, spec_clamp, clamp_fix};
use crate::rng::random_u64;

#[derive(Clone, Copy, Debug, PartialEq, Eq, Structural)]
pub enum ParamKey {
    Seed,
    RegenerateSeed,
    LandscapeWidth,
    LandingZoneRadius,
    LandingZoneMinDistance,
    LandingZoneMaxDistance,
    InitAltitude,
    InitVerticalVelocity,
    InitVerticalVelocityTarget,
}

/// A parameter's value: a seed, a flag, or a milli-scaled number.
#[derive(Clone, Copy, Debug, PartialEq, Eq, Structural)]
pub enum Data {
    Seed(u64),
    Bool(bool),
    Num(i64),
}

/// How a numeric parameter is bounded when it is set.
#[derive(Clone, Copy, Debug, PartialEq, Eq, Structural)]
pub enum ClampRule {
    /// Clamp into a fixed inclusive range.
    Range(i64, i64),
    /// Clamp into `[0, landscape_width / 2]`.
    HalfWidth,
    /// Store as given.
    NoClamp,
}

/// The registry of round-start parameters, in milli-units.
#[derive(Clone, Debug)]
pub struct Parameters {
    pub seed: u64,
    pub regenerate_seed: bool,
    pub landscape_width: i64,
    pub landing_zone_radius: i64,
    pub landing_zone_min_distance: i64,
    pub landing_zone_max_distance: i64,
    pub init_altitude: i64,
    pub init_vertical_velocity: i64,
    pub init_vertical_velocity_target: i64,
}

pub open spec fn spec_default(key: ParamKey) -> Data {
    match key {
        ParamKey::Seed => Data::Seed(0),
        ParamKey::RegenerateSeed => Data::Bool(true),
        ParamKey::LandscapeWidth => Data::Num(200_000),
        ParamKey::LandingZoneRadius => Data::Num(20_000),
        ParamKey::LandingZoneMinDistance => Data::Num(30_000),
        ParamKey::LandingZoneMaxDistance => Data::Num(70_000),
        ParamKey::InitAltitude => Data::Num(200_000),
        ParamKey::InitVerticalVelocity => Data::Num(0),
        ParamKey::InitVerticalVelocityTarget => Data::Num(-6_000i64),
    }
}

pub open spec fn spec_clamp_rule(key: ParamKey) -> ClampRule {
    match key {
        ParamKey::Seed => ClampRule::NoClamp,
        ParamKey::RegenerateSeed => ClampRule::NoClamp,
        ParamKey::LandscapeWidth => ClampRule::Range(100_000, 1_000_000),
        ParamKey::LandingZoneRadius => ClampRule::Range(5_000, 50_000),
        ParamKey::LandingZoneMinDistance => ClampRule::HalfWidth,
        ParamKey::LandingZoneMaxDistance => ClampRule::HalfWidth,
        ParamKey::InitAltitude => ClampRule::Range(100_000, 1_000_000),
        ParamKey::InitVerticalVelocity => ClampRule::Range(-20_000i64, 0),
        ParamKey::InitVerticalVelocityTarget => ClampRule::Range(-20_000i64, 0),
    }
}

/// Every registered key, in the registry's fixed order.
pub open spec fn spec_param_keys() -> Seq<ParamKey> {
    seq![
        ParamKey::Seed,
        ParamKey::RegenerateSeed,
        ParamKey::LandscapeWidth,
        ParamKey::LandingZoneRadius,
        ParamKey::LandingZoneMinDistance,
        ParamKey::LandingZoneMaxDistance,
        ParamKey::InitAltitude,
        ParamKey::InitVerticalVelocity,
        ParamKey::InitVerticalVelocityTarget,
    ]
}

pub open spec fn spec_get(p: Parameters, key: ParamKey) -> Data {
    match key {
        ParamKey::Seed => Data::Seed(p.seed),
        ParamKey::RegenerateSeed => Data::Bool(p.regenerate_seed),
        ParamKey::LandscapeWidth => Data::Num(p.landscape_width),
        ParamKey::LandingZoneRadius => Data::Num(p.landing_zone_radius),
        ParamKey::LandingZoneMinDistance => Data::Num(p.landing_zone_min_distance),
        ParamKey::LandingZoneMaxDistance => Data::Num(p.landing_zone_max_distance),
        ParamKey::InitAltitude => Data::Num(p.init_altitude),
        ParamKey::InitVerticalVelocity => Data::Num(p.init_vertical_velocity),
        ParamKey::InitVerticalVelocityTarget => Data::Num(p.init_vertical_velocity_target),
    }
}

/// One field overwritten; the value's shape is the caller's to check.
pub open spec fn spec_put(p: Parameters, key: ParamKey, d: Data) -> Parameters {
    match key {
        ParamKey::Seed => Parameters { seed: d->Seed_0, ..p },
        ParamKey::RegenerateSeed => Parameters { regenerate_seed: d->Bool_0, ..p },
        ParamKey::LandscapeWidth => Parameters { landscape_width: d->Num_0, ..p },
        ParamKey::LandingZoneRadius => Parameters { landing_zone_radius: d->Num_0, ..p },
        ParamKey::LandingZoneMinDistance => Parameters {
            landing_zone_min_distance: d->Num_0,
            ..p
        },
        ParamKey::LandingZoneMaxDistance => Parameters {
            landing_zone_max_distance: d->Num_0,
            ..p
        },
        ParamKey::InitAltitude => Parameters { init_altitude: d->Num_0, ..p },
        ParamKey::InitVerticalVelocity => Parameters { init_vertical_velocity: d->Num_0, ..p },
        ParamKey::InitVerticalVelocityTarget => Parameters {
            init_vertical_velocity_target: d->Num_0,
            ..p
        },
    }
}

/// The two values have the same shape: a parameter never changes kind.
pub open spec fn spec_same_kind(a: Data, b: Data) -> bool {
    match (a, b) {
        (Data::Seed(_), Data::Seed(_)) => true,
        (Data::Bool(_), Data::Bool(_)) => true,
        (Data::Num(_), Data::Num(_)) => true,
        _ => false,
    }
}

/// A requested value resolved against the registry as it stood before
/// the batch: a missing value resets to the default, a mismatched kind
/// is dropped, and a number is clamped by the key's policy.
pub open spec fn spec_resolve(p: Parameters, key: ParamKey, v: Option<Data>) -> Option<Data> {
    match v {
        None => Some(spec_default(key)),
        Some(d) => if spec_same_kind(spec_get(p, key), d) {
            Some(
                match (spec_clamp_rule(key), d) {
                    (ClampRule::Range(lo, hi), Data::Num(x)) => Data::Num(
                        spec_clamp(x as int, lo as int, hi as int) as i64,
                    ),
                    (ClampRule::HalfWidth, Data::Num(x)) => Data::Num(
                        spec_clamp(x as int, 0, p.landscape_width as int / 2) as i64,
                    ),
                    _ => d,
                },
            )
        } else {
            None
        },
    }
}

/// The stored value a key may hold after clamping: what the well-
/// formedness of the registry needs of each update.
pub open spec fn spec_data_ok(key: ParamKey, d: Data) -> bool {
    match spec_clamp_rule(key) {
        ClampRule::Range(lo, hi) => d matches Data::Num(x) ==> lo <= x <= hi,
        ClampRule::HalfWidth => d matches Data::Num(x) ==> 0 <= x <= 500_000,
        ClampRule::NoClamp => true,
    }
}

/// The batch's updates, resolved in order against the pre-batch state,
/// from entry `i` on.
pub open spec fn spec_resolved_from(
    p: Parameters,
    entries: Seq<(ParamKey, Option<Data>)>,
    i: int,
) -> Seq<(ParamKey, Data)>
    decreases entries.len() - i,
{
    if i < 0 || i >= entries.len() {
        Seq::empty()
    } else {
        let rest = spec_resolved_from(p, entries, i + 1);
        match spec_resolve(p, entries[i].0, entries[i].1) {
            Some(d) => seq![(entries[i].0, d)] + rest,
            None => rest,
        }
    }
}

/// The registry after the resolved updates are applied in order.
pub open spec fn spec_apply_from(
    p: Parameters,
    updates: Seq<(ParamKey, Data)>,
    i: int,
) -> Parameters
    decreases updates.len() - i,
{
    if i < 0 || i >= updates.len() {
        p
    } else {
        spec_apply_from(spec_put(p, updates[i].0, updates[i].1), updates, i + 1)
    }
}

impl Parameters {
    /// Every numeric field sits inside its policy's range; the derived
    /// distances sit inside the widest half-width range.
    pub open spec fn wf(self) -> bool {
        &&& 100_000 <= self.landscape_width <= 1_000_000
        &&& 5_000 <= self.landing_zone_radius <= 50_000
        &&& 0 <= self.landing_zone_min_distance <= 500_000
        &&& 0 <= self.landing_zone_max_distance <= 500_000
        &&& 100_000 <= self.init_altitude <= 1_000_000
        &&& -20_000 <= self.init_vertical_velocity <= 0
        &&& -20_000 <= self.init_vertical_velocity_target <= 0
    }

    /// The seed for the next round: a fresh draw when regeneration is
    /// on, the stored seed otherwise.
    pub fn next_seed(&mut self) -> (r: u64)
        ensures
            final(self).seed == r,
            !old(self).regenerate_seed ==> r == old(self).seed,
            final(self).regenerate_seed == old(self).regenerate_seed,
            final(self).landscape_width == old(self).landscape_width,
            final(self).landing_zone_radius == old(self).landing_zone_radius,
            final(self).landing_zone_min_distance == old(self).landing_zone_min_distance,
            final(self).landing_zone_max_distance == old(self).landing_zone_max_distance,
            final(self).init_altitude == old(self).init_altitude,
            final(self).init_vertical_velocity == old(self).init_vertical_velocity,
            final(self).init_vertical_velocity_target == old(self).init_vertical_velocity_target,
    {
        if self.regenerate_seed {
            let seed: u64 = random_u64();
            self.seed = seed;
            seed
        } else {
            self.seed
        }
    }

    /// The landscape width in whole cells.
    pub fn landscape_width(&self) -> (r: u32)
        requires
            self.wf(),
        ensures
            r == self.landscape_width as int / SCALE as int,
            100 <= r <= 1_000,
    {
        (self.landscape_width / SCALE) as u32
    }

    /// The minimum zone distance from the grid centre, in whole cells.
    pub fn landing_zone_min_distance(&self) -> (r: u32)
        requires
            self.wf(),
        ensures
            r == self.landing_zone_min_distance as int / SCALE as int,
            r <= 500,
    {
        (self.landing_zone_min_distance / SCALE) as u32
    }

    /// The maximum zone distance from the grid centre, in whole cells.
    pub fn landing_zone_max_distance(&self) -> (r: u32)
        requires
            self.wf(),
        ensures
            r == self.landing_zone_max_distance as int / SCALE as int,
            r <= 500,
    {
        (self.landing_zone_max_distance / SCALE) as u32
    }

    /// The flat zone radius in whole cells.
    pub fn landing_zone_radius(&self) -> (r: u32)
        requires
            self.wf(),
        ensures
            r == self.landing_zone_radius as int / SCALE as int,
            5 <= r <= 50,
    {
        (self.landing_zone_radius / SCALE) as u32
    }

    /// The initial altitude, in milli-metres.
    pub fn lander_init_altitude(&self) -> (r: i64)
        requires
            self.wf(),
        ensures
            r == self.init_altitude,
    {
        self.init_altitude
    }

    /// The initial vertical velocity, in milli-metres per second.
    pub fn lander_init_vertical_velocity(&self) -> (r: i64)
        requires
            self.wf(),
        ensures
            r == self.init_vertical_velocity,
    {
        self.init_vertical_velocity
    }

    /// The initial target vertical velocity, in milli-metres per second.
    pub fn lander_init_vertical_velocity_target(&self) -> (r: i64)
        requires
            self.wf(),
        ensures
            r == self.init_vertical_velocity_target,
    {
        self.init_vertical_velocity_target
    }

    /// Reads the requested parameters in order; an empty request reads
    /// the whole registry, every key in its fixed order.
    pub fn get(&self, names: &Vec<ParamKey>) -> (r: Vec<(ParamKey, Data)>)
        ensures
            names@.len() > 0 ==> r@.len() == names@.len() && forall|i: int|
                0 <= i < names@.len() ==> #[trigger] r@[i] == (
                names@[i],
                spec_get(*self, names@[i]),
            ),
            names@.len() == 0 ==> r@.len() == spec_param_keys().len() && forall|i: int|
                0 <= i < spec_param_keys().len() ==> #[trigger] r@[i] == (
                spec_param_keys()[i],
                spec_get(*self, spec_param_keys()[i]),
            ),
    {
        if names.len() == 0 {
            let mut all: Vec<ParamKey> = Vec::new();
            all.push(ParamKey::Seed);
            all.push(ParamKey::RegenerateSeed);
            all.push(ParamKey::LandscapeWidth);
            all.push(ParamKey::LandingZoneRadius);
            all.push(ParamKey::LandingZoneMinDistance);
            all.push(ParamKey::LandingZoneMaxDistance);
            all.push(ParamKey::InitAltitude);
            all.push(ParamKey::InitVerticalVelocity);
            all.push(ParamKey::InitVerticalVelocityTarget);
            proof {
                assert(all@ =~= spec_param_keys());
            }
            let r = self.get_each(&all);
            return r;
        }
        self.get_each(names)
    }

    /// Reads exactly the given keys in order.
    fn get_each(&self, names: &Vec<ParamKey>) -> (r: Vec<(ParamKey, Data)>)
        ensures
            r@.len() == names@.len(),
            forall|i: int|
                0 <= i < names@.len() ==> #[trigger] r@[i] == (
                names@[i],
                spec_get(*self, names@[i]),
            ),
    {
        let mut out: Vec<(ParamKey, Data)> = Vec::new();
        let mut i: usize = 0;
        while i < names.len()
            invariant
                0 <= i <= names@.len(),
                out@.len() == i,
                forall|j: int|
                    0 <= j < i ==> #[trigger] out@[j] == (names@[j], spec_get(*self, names@[j])),
            decreases names@.len() - i,
        {
            let key: ParamKey = names[i];
            out.push((key, self.get_one(key)));
            i = i + 1;
        }
        out
    }

    fn get_one(&self, key: ParamKey) -> (r: Data)
        ensures
            r == spec_get(*self, key),
    {
        match key {
            ParamKey::Seed => Data::Seed(self.seed),
            ParamKey::RegenerateSeed => Data::Bool(self.regenerate_seed),
            ParamKey::LandscapeWidth => Data::Num(self.landscape_width),
            ParamKey::LandingZoneRadius => Data::Num(self.landing_zone_radius),
            ParamKey::LandingZoneMinDistance => Data::Num(self.landing_zone_min_distance),
            ParamKey::LandingZoneMaxDistance => Data::Num(self.landing_zone_max_distance),
            ParamKey::InitAltitude => Data::Num(self.init_altitude),
            ParamKey::InitVerticalVelocity => Data::Num(self.init_vertical_velocity),
            ParamKey::InitVerticalVelocityTarget => Data::Num(self.init_vertical_velocity_target),
        }
    }

    fn put_one(&mut self, key: ParamKey, d: Data)
        requires
            spec_same_kind(spec_get(*old(self), key), d),
        ensures
            *final(self) == spec_put(*old(self), key, d),
    {
        match (key, d) {
            (ParamKey::Seed, Data::Seed(v)) => {
                self.seed = v;
            },
            (ParamKey::RegenerateSeed, Data::Bool(v)) => {
                self.regenerate_seed = v;
            },
            (ParamKey::LandscapeWidth, Data::Num(v)) => {
                self.landscape_width = v;
            },
            (ParamKey::LandingZoneRadius, Data::Num(v)) => {
                self.landing_zone_radius = v;
            },
            (ParamKey::LandingZoneMinDistance, Data::Num(v)) => {
                self.landing_zone_min_distance = v;
            },
            (ParamKey::LandingZoneMaxDistance, Data::Num(v)) => {
                self.landing_zone_max_distance = v;
            },
            (ParamKey::InitAltitude, Data::Num(v)) => {
                self.init_altitude = v;
            },
            (ParamKey::InitVerticalVelocity, Data::Num(v)) => {
                self.init_vertical_velocity = v;
            },
            (ParamKey::InitVerticalVelocityTarget, Data::Num(v)) => {
                self.init_vertical_velocity_target = v;
            },
            _ => {},
        }
    }

    fn resolve_one(&self, key: ParamKey, v: Option<Data>) -> (r: Option<Data>)
        requires
            self.wf(),
        ensures
            r == spec_resolve(*self, key, v),
            r matches Some(d) ==> spec_same_kind(spec_get(*self, key), d) && spec_data_ok(key, d),
    {
        match v {
            None => Some(self.default_of(key)),
            Some(d) => {
                let cur: Data = self.get_one(key);
                let matches_kind: bool = match (cur, d) {
                    (Data::Seed(_), Data::Seed(_)) => true,
                    (Data::Bool(_), Data::Bool(_)) => true,
                    (Data::Num(_), Data::Num(_)) => true,
                    _ => false,
                };
                if matches_kind {
                    let rule: ClampRule = match key {
                        ParamKey::Seed => ClampRule::NoClamp,
                        ParamKey::RegenerateSeed => ClampRule::NoClamp,
                        ParamKey::LandscapeWidth => ClampRule::Range(100_000, 1_000_000),
                        ParamKey::LandingZoneRadius => ClampRule::Range(5_000, 50_000),
                        ParamKey::LandingZoneMinDistance => ClampRule::HalfWidth,
                        ParamKey::LandingZoneMaxDistance => ClampRule::HalfWidth,
                        ParamKey::InitAltitude => ClampRule::Range(100_000, 1_000_000),
                        ParamKey::InitVerticalVelocity => ClampRule::Range(-20_000, 0),
                        ParamKey::InitVerticalVelocityTarget => ClampRule::Range(-20_000, 0),
                    };
                    Some(
                        match (rule, d) {
                            (ClampRule::Range(lo, hi), Data::Num(x)) => Data::Num(
                                clamp_fix(x, lo, hi),
                            ),
                            (ClampRule::HalfWidth, Data::Num(x)) => Data::Num(
                                clamp_fix(x, 0, self.landscape_width / 2),
                            ),
                            _ => d,
                        },
                    )
                } else {
                    None
                }
            },
        }
    }

    fn default_of(&self, key: ParamKey) -> (r: Data)
        ensures
            r == spec_default(key),
    {
        match key {
            ParamKey::Seed => Data::Seed(0),
            ParamKey::RegenerateSeed => Data::Bool(true),
            ParamKey::LandscapeWidth => Data::Num(200_000),
            ParamKey::LandingZoneRadius => Data::Num(20_000),
            ParamKey::LandingZoneMinDistance => Data::Num(30_000),
            ParamKey::LandingZoneMaxDistance => Data::Num(70_000),
            ParamKey::InitAltitude => Data::Num(200_000),
            ParamKey::InitVerticalVelocity => Data::Num(0),
            ParamKey::InitVerticalVelocityTarget => Data::Num(-6_000),
        }
    }

    /// Applies a batch of requested updates: each is resolved against
    /// the registry as it stood before the batch, then all are applied
    /// in order. Returns what was stored.
    pub fn set(&mut self, entries: &Vec<(ParamKey, Option<Data>)>) -> (r: Vec<(ParamKey, Data)>)
        requires
            old(self).wf(),
        ensures
            r@ == spec_resolved_from(*old(self), entries@, 0),
            *final(self) == spec_apply_from(*old(self), r@, 0),
            final(self).wf(),
    {
        let ghost p0 = *self;
        let mut updates: Vec<(ParamKey, Data)> = Vec::new();
        let mut i: usize = 0;
        while i < entries.len()
            invariant
                0 <= i <= entries@.len(),
                *self == p0,
                p0.wf(),
                updates@ + spec_resolved_from(p0, entries@, i as int) == spec_resolved_from(
                    p0,
                    entries@,
                    0,
                ),
                forall|j: int|
                    0 <= j < updates@.len() ==> spec_same_kind(
                        spec_get(p0, #[trigger] updates@[j].0),
                        updates@[j].1,
                    ) && spec_data_ok(updates@[j].0, updates@[j].1),
            decreases entries@.len() - i,
        {
            let (key, v): (ParamKey, Option<Data>) = entries[i];
            match self.resolve_one(key, v) {
                Some(d) => {
                    updates.push((key, d));
                },
                None => {},
            }
            proof {
                assert(updates@ + spec_resolved_from(p0, entries@, i + 1) =~= spec_resolved_from(
                    p0,
                    entries@,
                    0,
                ));
            }
            i = i + 1;
        }
        let mut k: usize = 0;
        proof {
            assert(updates@ =~= spec_resolved_from(p0, entries@, 0));
        }
        let ghost all = updates@;
        while k < updates.len()
            invariant
                0 <= k <= updates@.len(),
                updates@ == all,
                spec_apply_from(p0, all, 0) == spec_apply_from(*self, all, k as int),
                forall|j: int|
                    0 <= j < all.len() ==> spec_same_kind(
                        spec_get(p0, #[trigger] all[j].0),
                        all[j].1,
                    ) && spec_data_ok(all[j].0, all[j].1),
                forall|key: ParamKey| #[trigger]
                    spec_same_kind(spec_get(p0, key), spec_get(*self, key)),
                self.wf(),
            decreases updates@.len() - k,
        {
            let (key, d): (ParamKey, Data) = updates[k];
            self.put_one(key, d);
            k = k + 1;
        }
        updates
    }
}

impl Default for Parameters {
    /// The registry with every parameter at its default.
    fn default() -> (r: Parameters)
        ensures
            forall|key: ParamKey| #[trigger] spec_get(r, key) == spec_default(key),
            r.wf(),
    {
        let r = Parameters {
            seed: 0,
            regenerate_seed: true,
            landscape_width: 200_000,
            landing_zone_radius: 20_000,
            landing_zone_min_distance: 30_000,
            landing_zone_max_distance: 70_000,
            init_altitude: 200_000,
            init_vertical_velocity: 0,
            init_vertical_velocity_target: -6_000,
        };
        proof {
            assert forall|key: ParamKey| #[trigger] spec_get(r, key) == spec_default(key) by {}
        }
        r
    }
}

} // verus!
