//! Engine profile — tunable metadata independent of ECU board.

use crate::efi::config::{lemma_config_verdict, ConfigError, EngineConfig, MAX_CYLINDERS};
use crate::engine::profile::{interval_sum, sum_intervals};
use crate::trigger::TriggerSetup;
use vstd::prelude::*;

verus! {

/// Complete configuration for one engine type (factory specs + trigger pattern).
#[derive(Clone, Debug, PartialEq)]
pub struct EngineProfile {
    /// Human-readable name, e.g. `"Yamaha CP3"`.
    pub id: &'static str,
    pub engine: EngineConfig,
    pub trigger: TriggerSetup,
    /// Crank degrees between consecutive power strokes; length must match cylinder count.
    pub fire_intervals_deg: &'static [u16],
    pub soft_rev_limit_rpm: u16,
    pub hard_rev_limit_rpm: u16,
    pub spark_plugs_per_cylinder: u8,
}

/// Why an [`EngineProfile`] was rejected.
#[derive(Clone, Copy, Debug, PartialEq, Eq)]
pub enum ProfileError {
    /// The embedded engine configuration is invalid.
    EngineConfig(ConfigError),
    /// The fire intervals do not name one gap per cylinder.
    FireIntervalCount,
    /// The fire intervals do not add up to a four-stroke cycle (720°).
    FireIntervalSum,
}

impl From<ConfigError> for ProfileError {
    fn from(err: ConfigError) -> (r: Self) {
        ProfileError::EngineConfig(err)
    }
}

impl vstd::std_specs::convert::FromSpecImpl<ConfigError> for ProfileError {
    open spec fn obeys_from_spec() -> bool {
        true
    }

    open spec fn from_spec(v: ConfigError) -> Self {
        ProfileError::EngineConfig(v)
    }
}

/// The profile verdict, stated directly: a bad configuration (count outside
/// 1..=MAX_CYLINDERS or one firing entry per cylinder missing) is reported
/// first, then a wrong number of fire intervals, then intervals that do not
/// add up to exactly 720°; a profile passing all three is accepted.
pub open spec fn profile_verdict_matches(p: EngineProfile, r: Result<(), ProfileError>) -> bool {
    let cfg = 1 <= p.engine.cylinders <= MAX_CYLINDERS && p.engine.firing_sequence@.len()
        == p.engine.cylinders;
    let count = cfg && p.fire_intervals_deg@.len() == p.engine.cylinders;
    &&& (r is Ok) <==> (count && interval_sum(p.fire_intervals_deg@) == 720)
    &&& (!cfg <==> r matches Err(ProfileError::EngineConfig(_)))
    &&& forall|e: ConfigError|
        r == Err::<(), ProfileError>(ProfileError::EngineConfig(e)) ==> #[trigger] p.engine.spec_validate()
            == Err::<(), ConfigError>(e)
    &&& (r == Err::<(), ProfileError>(ProfileError::FireIntervalCount)) <==> (cfg
        && p.fire_intervals_deg@.len() != p.engine.cylinders)
    &&& (r == Err::<(), ProfileError>(ProfileError::FireIntervalSum)) <==> (count && interval_sum(
        p.fire_intervals_deg@,
    ) != 720)
}

/// A profile is accepted exactly when its configuration is valid, it has one
/// fire interval per cylinder and the intervals add up to exactly 720°.
pub proof fn lemma_profile_verdict(p: EngineProfile)
    ensures
        profile_verdict_matches(p, p.spec_validate()),
{
    lemma_config_verdict(p.engine);
}

impl EngineProfile {
    /// The fire intervals can be added up in 16 bits wherever the
    /// validation adds them up (valid configuration, one interval per
    /// cylinder).
    pub open spec fn interval_sum_fits(&self) -> bool {
        (self.engine.spec_validate() is Ok && self.fire_intervals_deg@.len() == self.engine.cylinders)
            ==> interval_sum(self.fire_intervals_deg@) <= u16::MAX
    }

    /// What [`EngineProfile::validate`] answers for this profile.
    pub open spec fn spec_validate(&self) -> Result<(), ProfileError> {
        match self.engine.spec_validate() {
            Err(e) => Err(ProfileError::EngineConfig(e)),
            Ok(()) => if self.fire_intervals_deg@.len() != self.engine.cylinders {
                Err(ProfileError::FireIntervalCount)
            } else if interval_sum(self.fire_intervals_deg@) != 720 {
                Err(ProfileError::FireIntervalSum)
            } else {
                Ok(())
            },
        }
    }

    /// Check the configuration and that the fire intervals cover one
    /// four-stroke cycle.
    pub fn validate(&self) -> (r: Result<(), ProfileError>)
        requires
            self.interval_sum_fits(),
        ensures
            r == self.spec_validate(),
            profile_verdict_matches(*self, r),
    {
        proof {
            lemma_profile_verdict(*self);
        }
        match self.engine.validate() {
            Err(e) => return Err(ProfileError::from(e)),
            Ok(()) => {},
        }
        if self.fire_intervals_deg.len() != self.engine.cylinders as usize {
            return Err(ProfileError::FireIntervalCount);
        }
        let sum = sum_intervals(self.fire_intervals_deg);
        if sum != 720 {
            return Err(ProfileError::FireIntervalSum);
        }
        Ok(())
    }
}

} // verus!
