//! Default engine and board configuration for Rotax V990 on microRusEFI.

pub mod wiring;

use crate::efi_core::config::EngineConfig;
use crate::engines::rotax_v990::{self, Profile};
use vstd::prelude::*;

verus! {

/// Target engine for this firmware build.
pub const ENGINE_ID: &'static str = "Rotax V990";

/// Firmware identity string (rusEFI uses `microRusEFI`).
pub const FIRMWARE_ID: &'static str = "sigma-efi-mre";

/// Target MCU — verify against your PCB silkscreen / BOM.
pub const TARGET_MCU: &'static str = "STM32F767VI";

/// Best-default engine + trigger profile.
pub fn default_profile() -> (p: Profile)
    ensures
        rotax_v990::is_best(p),
{
    rotax_v990::profile()
}

/// The engine configuration of [`default_profile`].
pub fn default_engine_config() -> (c: EngineConfig)
    ensures
        rotax_v990::is_best_config(c),
{
    default_profile().engine
}

} // verus!
