//! Engine profile with an explicit cycle length (four- or two-stroke).

use crate::efi::config::{lemma_config_verdict, ConfigError, EngineConfig, MAX_CYLINDERS};
use crate::engine::profile::{interval_sum, sum_intervals};
use crate::trigger::TriggerSetup;
use vstd::prelude::*;

verus! {

/// Full engine cycle in crank degrees for a four-stroke Otto cycle.
pub const CYCLE_DEGREES_FOUR_STROKE: u16 = 720;

/// Full engine cycle in crank degrees for a two-stroke engine.
pub const CYCLE_DEGREES_TWO_STROKE: u16 = 360;

/// Complete configuration for one engine type (factory specs + trigger pattern).
#[derive(Clone, Debug, PartialEq)]
pub struct EngineProfile {
    /// Human-readable name, e.g. `"Yamaha CP3"`.
    pub id: &'static str,
    pub engine: EngineConfig,
    pub trigger: TriggerSetup,
    /// Crank degrees for one full engine cycle (720° four-stroke, 360° two-stroke).
    pub cycle_degrees: u16,
    /// Crank degrees between consecutive power strokes; length must match cylinder count.
    pub fire_intervals_deg: &'static [u16],
    pub soft_rev_limit_rpm: u16,
    pub hard_rev_limit_rpm: u16,
    pub spark_plugs_per_cylinder: u8,
}

/// Why an [`EngineProfile`] was rejected.
#[derive(Clone, Copy, Debug, PartialEq, Eq)]
pub enum ProfileError {
    /// The embedded engine configuration is invalid.
    EngineConfig(ConfigError),
    /// The cycle length is zero degrees.
    InvalidCycleDegrees,
    /// The fire intervals do not name one gap per cylinder.
    FireIntervalCount,
    /// The fire intervals do not add up to one engine cycle.
    FireIntervalSum,
    /// Zero spark plugs per cylinder.
    InvalidSparkPlugCount,
}

impl From<ConfigError> for ProfileError {
    fn from(err: ConfigError) -> (r: Self) {
        ProfileError::EngineConfig(err)
    }
}

impl vstd::std_specs::convert::FromSpecImpl<ConfigError> for ProfileError {
    open spec fn obeys_from_spec() -> bool {
        true
    }

    open spec fn from_spec(v: ConfigError) -> Self {
        ProfileError::EngineConfig(v)
    }
}

/// The profile verdict, stated directly: each check applies only when all
/// earlier ones pass (configuration, non-zero cycle, one interval per
/// cylinder, intervals adding up to the cycle, plug count), and a profile
/// that passes them all is accepted.
pub open spec fn profile_verdict_matches(p: EngineProfile, r: Result<(), ProfileError>) -> bool {
    let cfg = 1 <= p.engine.cylinders <= MAX_CYLINDERS && p.engine.firing_sequence@.len()
        == p.engine.cylinders;
    let cycle = cfg && p.cycle_degrees != 0;
    let count = cycle && p.fire_intervals_deg@.len() == p.engine.cylinders;
    let sum = count && interval_sum(p.fire_intervals_deg@) == p.cycle_degrees;
    &&& (r is Ok) <==> (sum && p.spark_plugs_per_cylinder != 0)
    &&& (!cfg <==> r matches Err(ProfileError::EngineConfig(_)))
    &&& forall|e: ConfigError|
        r == Err::<(), ProfileError>(ProfileError::EngineConfig(e)) ==> #[trigger] p.engine.spec_validate()
            == Err::<(), ConfigError>(e)
    &&& (r == Err::<(), ProfileError>(ProfileError::InvalidCycleDegrees)) <==> (cfg && p.cycle_degrees == 0)
    &&& (r == Err::<(), ProfileError>(ProfileError::FireIntervalCount)) <==> (cycle
        && p.fire_intervals_deg@.len() != p.engine.cylinders)
    &&& (r == Err::<(), ProfileError>(ProfileError::FireIntervalSum)) <==> (count && interval_sum(
        p.fire_intervals_deg@,
    ) != p.cycle_degrees)
    &&& (r == Err::<(), ProfileError>(ProfileError::InvalidSparkPlugCount)) <==> (sum
        && p.spark_plugs_per_cylinder == 0)
}

/// A profile is accepted exactly when its configuration is valid, the cycle
/// is non-zero, there is one fire interval per cylinder, the intervals add
/// up exactly to the cycle and every cylinder has a plug.
pub proof fn lemma_profile_verdict(p: EngineProfile)
    ensures
        profile_verdict_matches(p, p.spec_validate()),
{
    lemma_config_verdict(p.engine);
}

impl EngineProfile {
    /// The fire intervals can be added up in 16 bits wherever the
    /// validation adds them up.
    pub open spec fn interval_sum_fits(&self) -> bool {
        (self.engine.spec_validate() is Ok && self.cycle_degrees != 0
            && self.fire_intervals_deg@.len() == self.engine.cylinders) ==> interval_sum(
            self.fire_intervals_deg@,
        ) <= u16::MAX
    }

    /// What [`EngineProfile::validate`] answers for this profile.
    pub open spec fn spec_validate(&self) -> Result<(), ProfileError> {
        match self.engine.spec_validate() {
            Err(e) => Err(ProfileError::EngineConfig(e)),
            Ok(()) => if self.cycle_degrees == 0 {
                Err(ProfileError::InvalidCycleDegrees)
            } else if self.fire_intervals_deg@.len() != self.engine.cylinders {
                Err(ProfileError::FireIntervalCount)
            } else if interval_sum(self.fire_intervals_deg@) != self.cycle_degrees {
                Err(ProfileError::FireIntervalSum)
            } else if self.spark_plugs_per_cylinder == 0 {
                Err(ProfileError::InvalidSparkPlugCount)
            } else {
                Ok(())
            },
        }
    }

    /// Check the configuration, the cycle length, the fire intervals and
    /// the plug count.
    pub fn validate(&self) -> (r: Result<(), ProfileError>)
        requires
            self.interval_sum_fits(),
        ensures
            r == self.spec_validate(),
            profile_verdict_matches(*self, r),
    {
        proof {
            lemma_profile_verdict(*self);
        }
        match self.engine.validate() {
            Err(e) => return Err(ProfileError::from(e)),
            Ok(()) => {},
        }
        if self.cycle_degrees == 0 {
            return Err(ProfileError::InvalidCycleDegrees);
        }
        if self.fire_intervals_deg.len() != self.engine.cylinders as usize {
            return Err(ProfileError::FireIntervalCount);
        }
        let sum = sum_intervals(self.fire_intervals_deg);
        if sum != self.cycle_degrees {
            return Err(ProfileError::FireIntervalSum);
        }
        if self.spark_plugs_per_cylinder == 0 {
            return Err(ProfileError::InvalidSparkPlugCount);
        }
        Ok(())
    }
}

} // verus!
