//! microRusEFI board support for the Rotax V990 build.

pub mod defaults;

pub use crate::pins::BoardPins;
pub use defaults::{ENGINE_ID, FIRMWARE_ID, TARGET_MCU, default_engine_config, default_profile};
