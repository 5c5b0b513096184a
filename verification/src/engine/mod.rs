//! Engine domain: configuration, profiles, and event counts.
//!
//! - [`config`] — the tunable [`EngineConfig`] and its validation vocabulary
//! - [`firing`] — firing-order presets
//! - [`profile`] — a complete [`EngineProfile`] (factory specs + trigger)
//! - [`state`] — fuel and spark events per engine cycle
//! - [`yamaha_cp3`] — the Yamaha CP3 profile (this build's engine)

pub mod config;
pub mod firing;
pub mod profile;
pub mod state;
pub mod yamaha_cp3;

pub use config::{ConfigError, EngineConfig, IgnitionMode, InjectionMode, MAX_CYLINDERS};
pub use profile::{CYCLE_DEGREES_FOUR_STROKE, EngineProfile, ProfileError};

use vstd::prelude::*;

verus! {

/// Engine profile selected for this build (the Yamaha CP3).
pub fn active_profile() -> (p: EngineProfile)
    ensures
        yamaha_cp3::is_profile(p),
{
    yamaha_cp3::profile()
}

} // verus!
