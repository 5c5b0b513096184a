//! microRusEFI board identity strings.

use vstd::prelude::*;

verus! {

/// Firmware identity string (rusEFI uses `microRusEFI`).
pub const FIRMWARE_ID: &'static str = "sigma-racer-efi-mre";

/// Target MCU — verify against your PCB silkscreen / BOM.
pub const TARGET_MCU: &'static str = "STM32F767VI";

} // verus!
