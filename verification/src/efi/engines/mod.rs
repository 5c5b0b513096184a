//! Known engine profiles and the build's engine selection.

pub mod profile;
pub mod rotax_v990;
pub mod yamaha_cp3;

pub use profile::EngineProfile;

use vstd::prelude::*;

verus! {

/// Engine profile selected for this build (the Yamaha CP3).
pub fn active_profile() -> (p: EngineProfile)
    ensures
        yamaha_cp3::is_profile(p),
{
    yamaha_cp3::profile()
}

} // verus!
