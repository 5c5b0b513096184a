//! Engine profile — tunable metadata independent of ECU board.

mod profile_error;

pub use profile_error::ProfileError;

use crate::engine::config::{is_firing_permutation, lemma_config_verdict};
use crate::engine::{ConfigError, EngineConfig, MAX_CYLINDERS};
use crate::trigger::TriggerSetup;
use vstd::prelude::*;

verus! {

/// Full engine cycle in crank degrees for a four-stroke Otto cycle.
pub const CYCLE_DEGREES_FOUR_STROKE: u16 = 720;

/// Complete configuration for one engine type (factory specs + trigger pattern).
#[derive(Clone, Debug, PartialEq)]
pub struct EngineProfile {
    /// Human-readable name, e.g. `"Yamaha CP3"`.
    pub id: &'static str,
    pub engine: EngineConfig,
    pub trigger: TriggerSetup,
    /// Crank degrees for one full engine cycle (720° four-stroke, 360° two-stroke).
    pub cycle_degrees: u16,
    /// Crank degrees between consecutive power strokes; length must match cylinder count.
    pub fire_intervals_deg: &'static [u16],
    pub soft_rev_limit_rpm: u16,
    pub hard_rev_limit_rpm: u16,
    pub spark_plugs_per_cylinder: u8,
}

/// Sum of a sequence of crank-angle intervals.
pub open spec fn interval_sum(s: Seq<u16>) -> int
    decreases s.len(),
{
    if s.len() == 0 {
        0
    } else {
        interval_sum(s.drop_last()) + s.last()
    }
}

/// Prefix sums never exceed the whole sum (intervals are non-negative).
pub(crate) proof fn lemma_interval_prefix_sum(s: Seq<u16>, i: int)
    requires
        0 <= i <= s.len(),
    ensures
        0 <= interval_sum(s.take(i)) <= interval_sum(s),
    decreases s.len() - i,
{
    if i < s.len() {
        lemma_interval_prefix_sum(s, i + 1);
        assert(s.take(i + 1).drop_last() =~= s.take(i));
    } else {
        assert(s.take(i) =~= s);
    }
    lemma_interval_sum_nonneg(s.take(i));
}

proof fn lemma_interval_sum_nonneg(s: Seq<u16>)
    ensures
        interval_sum(s) >= 0,
    decreases s.len(),
{
    if s.len() > 0 {
        lemma_interval_sum_nonneg(s.drop_last());
    }
}

/// Add up the fire intervals in 16-bit arithmetic (the caller guarantees
/// that the total fits).
pub(crate) fn sum_intervals(intervals: &[u16]) -> (r: u16)
    requires
        interval_sum(intervals@) <= u16::MAX,
    ensures
        r == interval_sum(intervals@),
{
    let mut sum: u16 = 0;
    let mut i: usize = 0;
    while i < intervals.len()
        invariant
            0 <= i <= intervals@.len(),
            interval_sum(intervals@) <= u16::MAX,
            sum == interval_sum(intervals@.take(i as int)),
        decreases intervals@.len() - i,
    {
        proof {
            lemma_interval_prefix_sum(intervals@, i + 1);
            assert(intervals@.take(i + 1).drop_last() =~= intervals@.take(i as int));
        }
        sum = sum + intervals[i];
        i += 1;
    }
    proof {
        assert(intervals@.take(i as int) =~= intervals@);
    }
    sum
}

/// The engine configuration counts 1..=MAX_CYLINDERS cylinders and fires
/// each exactly once.
pub open spec fn config_ok(c: EngineConfig) -> bool {
    1 <= c.cylinders <= MAX_CYLINDERS && is_firing_permutation(c.firing_sequence@, c.cylinders)
}

/// The profile verdict, stated directly: each check applies only when all
/// earlier ones pass (configuration, cycle length, interval count, interval
/// sum, plug count, non-zero rev limits, soft ≤ hard), and a profile that
/// passes them all is accepted.
pub open spec fn profile_verdict_matches(p: EngineProfile, r: Result<(), ProfileError>) -> bool {
    let cfg = config_ok(p.engine);
    let cycle = cfg && p.cycle_degrees != 0;
    let count = cycle && p.fire_intervals_deg@.len() == p.engine.cylinders;
    let sum = count && interval_sum(p.fire_intervals_deg@) == p.cycle_degrees;
    let plugs = sum && p.spark_plugs_per_cylinder != 0;
    let limits = plugs && p.soft_rev_limit_rpm != 0 && p.hard_rev_limit_rpm != 0;
    &&& (r is Ok) <==> (limits && p.soft_rev_limit_rpm <= p.hard_rev_limit_rpm)
    &&& (!cfg <==> r matches Err(ProfileError::EngineConfig(_)))
    &&& forall|e: ConfigError|
        r == Err::<(), ProfileError>(ProfileError::EngineConfig(e)) ==> #[trigger] p.engine.spec_validate()
            == Err::<(), ConfigError>(e)
    &&& (r == Err::<(), ProfileError>(ProfileError::InvalidCycleDegrees)) <==> (cfg && p.cycle_degrees == 0)
    &&& (r == Err::<(), ProfileError>(ProfileError::FireIntervalCount)) <==> (cycle
        && p.fire_intervals_deg@.len() != p.engine.cylinders)
    &&& (r == Err::<(), ProfileError>(ProfileError::FireIntervalSum)) <==> (count && interval_sum(
        p.fire_intervals_deg@,
    ) != p.cycle_degrees)
    &&& (r == Err::<(), ProfileError>(ProfileError::InvalidSparkPlugCount)) <==> (sum
        && p.spark_plugs_per_cylinder == 0)
    &&& (r == Err::<(), ProfileError>(ProfileError::InvalidRevLimit)) <==> (plugs && (
    p.soft_rev_limit_rpm == 0 || p.hard_rev_limit_rpm == 0))
    &&& (r == Err::<(), ProfileError>(ProfileError::RevLimitOrder)) <==> (limits && p.soft_rev_limit_rpm
        > p.hard_rev_limit_rpm)
}

/// A profile is accepted exactly when its configuration is valid, the cycle
/// is non-zero, there is one fire interval per cylinder, the intervals add
/// up exactly to the cycle, every cylinder has a plug and the rev limits are
/// non-zero with soft ≤ hard; each rejection names the first check that fails.
pub proof fn lemma_profile_verdict(p: EngineProfile)
    ensures
        profile_verdict_matches(p, p.spec_validate()),
{
    lemma_config_verdict(p.engine.cylinders, p.engine.firing_sequence@);
}

impl EngineProfile {
    /// The validation reaches the fire-interval sum: the engine
    /// configuration passed, the cycle is non-zero and there is one
    /// interval per cylinder.
    pub open spec fn reaches_interval_sum(&self) -> bool {
        &&& self.engine.spec_validate() is Ok
        &&& self.cycle_degrees != 0
        &&& self.fire_intervals_deg@.len() == self.engine.cylinders
    }

    /// The fire intervals can be added up in 16 bits wherever the
    /// validation adds them up.
    pub open spec fn interval_sum_fits(&self) -> bool {
        self.reaches_interval_sum() ==> interval_sum(self.fire_intervals_deg@) <= u16::MAX
    }

    /// What [`EngineProfile::validate`] answers for this profile.
    pub open spec fn spec_validate(&self) -> Result<(), ProfileError> {
        match self.engine.spec_validate() {
            Err(e) => Err(ProfileError::EngineConfig(e)),
            Ok(()) => if self.cycle_degrees == 0 {
                Err(ProfileError::InvalidCycleDegrees)
            } else if self.fire_intervals_deg@.len() != self.engine.cylinders {
                Err(ProfileError::FireIntervalCount)
            } else if interval_sum(self.fire_intervals_deg@) != self.cycle_degrees {
                Err(ProfileError::FireIntervalSum)
            } else if self.spark_plugs_per_cylinder == 0 {
                Err(ProfileError::InvalidSparkPlugCount)
            } else if self.soft_rev_limit_rpm == 0 || self.hard_rev_limit_rpm == 0 {
                Err(ProfileError::InvalidRevLimit)
            } else if self.soft_rev_limit_rpm > self.hard_rev_limit_rpm {
                Err(ProfileError::RevLimitOrder)
            } else {
                Ok(())
            },
        }
    }

    /// Sanity-check the profile at boot.
    pub fn validate(&self) -> (r: Result<(), ProfileError>)
        requires
            self.interval_sum_fits(),
        ensures
            r == self.spec_validate(),
            profile_verdict_matches(*self, r),
    {
        proof {
            lemma_profile_verdict(*self);
        }
        match self.engine.validate() {
            Err(e) => return Err(ProfileError::from(e)),
            Ok(()) => {},
        }
        if self.cycle_degrees == 0 {
            return Err(ProfileError::InvalidCycleDegrees);
        }
        if self.fire_intervals_deg.len() != self.engine.cylinders as usize {
            return Err(ProfileError::FireIntervalCount);
        }
        let sum = sum_intervals(self.fire_intervals_deg);
        if sum != self.cycle_degrees {
            return Err(ProfileError::FireIntervalSum);
        }
        if self.spark_plugs_per_cylinder == 0 {
            return Err(ProfileError::InvalidSparkPlugCount);
        }
        // Rev limits are safety-critical: both must be non-zero and the soft
        // (fuel/spark-cut warning) limit must not exceed the hard (absolute) limit.
        if self.soft_rev_limit_rpm == 0 || self.hard_rev_limit_rpm == 0 {
            return Err(ProfileError::InvalidRevLimit);
        }
        if self.soft_rev_limit_rpm > self.hard_rev_limit_rpm {
            return Err(ProfileError::RevLimitOrder);
        }
        Ok(())
    }
}

} // verus!
