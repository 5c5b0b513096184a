//! The first-generation engine model: configurations checked by cylinder
//! count and firing-sequence length, four-stroke profiles, and the
//! microRusEFI default wiring.

pub mod config;
pub mod defaults;
pub mod engines;

pub use config::EngineConfig;
pub use defaults::{FIRMWARE_ID, TARGET_MCU};
pub use engines::EngineProfile;
pub use engines::active_profile;
