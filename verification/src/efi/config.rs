//! Engine configuration persisted in flash / tuned at runtime.

pub use crate::engine::firing;
pub use crate::engine::{IgnitionMode, InjectionMode};

use vstd::prelude::*;

verus! {

/// Number of cylinders supported by the core engine model (microRusEFI limit).
pub const MAX_CYLINDERS: usize = 4;

/// Top-level tunable engine configuration.
#[derive(Clone, Debug, PartialEq)]
pub struct EngineConfig {
    pub cylinders: u8,
    /// Cylinder indices (0-based) in firing order; length must equal `cylinders`.
    pub firing_sequence: &'static [u8],
    pub injection_mode: InjectionMode,
    pub ignition_mode: IgnitionMode,
    pub cranking_injection_mode: InjectionMode,
    /// Displacement in cubic centimeters (used for load modeling).
    pub displacement_cc: u16,
    /// Target idle RPM when closed-loop idle is active.
    pub target_idle_rpm: u16,
}

/// Why an [`EngineConfig`] was rejected.
#[derive(Clone, Copy, Debug, PartialEq, Eq)]
pub enum ConfigError {
    /// Zero cylinders, or more than the board can drive.
    InvalidCylinderCount,
    /// The firing sequence does not name exactly one entry per cylinder.
    FiringSequenceLength,
}

/// The configuration verdict, stated directly: zero or too many cylinders
/// is reported first; otherwise the configuration is accepted exactly when
/// the firing sequence has one entry per cylinder.
pub open spec fn config_verdict_matches(c: EngineConfig, r: Result<(), ConfigError>) -> bool {
    &&& (r is Ok) <==> (1 <= c.cylinders <= MAX_CYLINDERS && c.firing_sequence@.len() == c.cylinders)
    &&& (r == Err::<(), ConfigError>(ConfigError::InvalidCylinderCount)) <==> (c.cylinders == 0
        || c.cylinders > MAX_CYLINDERS)
    &&& (r == Err::<(), ConfigError>(ConfigError::FiringSequenceLength)) <==> (1 <= c.cylinders
        <= MAX_CYLINDERS && c.firing_sequence@.len() != c.cylinders)
}

/// A configuration is accepted exactly when it has 1..=MAX_CYLINDERS
/// cylinders and one firing entry per cylinder.
pub proof fn lemma_config_verdict(c: EngineConfig)
    ensures
        config_verdict_matches(c, c.spec_validate()),
{
}

impl EngineConfig {
    /// What [`EngineConfig::validate`] answers for this configuration.
    pub open spec fn spec_validate(&self) -> Result<(), ConfigError> {
        if self.cylinders == 0 || self.cylinders > MAX_CYLINDERS {
            Err(ConfigError::InvalidCylinderCount)
        } else if self.firing_sequence@.len() != self.cylinders {
            Err(ConfigError::FiringSequenceLength)
        } else {
            Ok(())
        }
    }

    /// Number of cylinders configured.
    pub fn cylinder_count(&self) -> (r: usize)
        ensures
            r == self.cylinders,
    {
        self.cylinders as usize
    }

    /// Check the cylinder count and the firing-sequence length.
    pub fn validate(&self) -> (r: Result<(), ConfigError>)
        ensures
            r == self.spec_validate(),
            config_verdict_matches(*self, r),
    {
        proof {
            lemma_config_verdict(*self);
        }
        if self.cylinders == 0 || self.cylinders as usize > MAX_CYLINDERS {
            return Err(ConfigError::InvalidCylinderCount);
        }
        if self.firing_sequence.len() != self.cylinders as usize {
            return Err(ConfigError::FiringSequenceLength);
        }
        Ok(())
    }
}

} // verus!
