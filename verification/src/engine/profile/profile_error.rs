//! [`ProfileError`].

use crate::engine::ConfigError;
use vstd::prelude::*;

verus! {

/// Why an [`EngineProfile`](crate::engine::EngineProfile) was rejected.
#[derive(Clone, Copy, Debug, PartialEq, Eq)]
pub enum ProfileError {
    /// The embedded engine configuration is invalid.
    EngineConfig(ConfigError),
    /// The cycle length is zero degrees.
    InvalidCycleDegrees,
    /// The fire intervals do not name one gap per cylinder.
    FireIntervalCount,
    /// The fire intervals do not add up to one engine cycle.
    FireIntervalSum,
    /// Zero spark plugs per cylinder.
    InvalidSparkPlugCount,
    /// A rev limit was zero.
    InvalidRevLimit,
    /// The soft rev limit exceeds the hard rev limit.
    RevLimitOrder,
}

impl From<ConfigError> for ProfileError {
    fn from(err: ConfigError) -> (r: Self) {
        ProfileError::EngineConfig(err)
    }
}

impl vstd::std_specs::convert::FromSpecImpl<ConfigError> for ProfileError {
    open spec fn obeys_from_spec() -> bool {
        true
    }

    open spec fn from_spec(v: ConfigError) -> Self {
        ProfileError::EngineConfig(v)
    }
}

} // verus!
