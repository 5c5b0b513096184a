//! Board domain: microRusEFI pin map, outputs, wiring validation, brown-out
//! level and the TLE8888 command encoding.
//!
//! - [`identity`] — firmware/MCU identity strings
//! - [`pins`] — [`BoardPins`] / [`GpioPin`] / [`GpioPort`] map
//! - [`output`] — [`TleOutput`] roles
//! - [`wiring`] — cylinder→output mapping + profile validation
//! - [`bor`] — brown-out reset level and option-byte programming decisions
//! - [`tle8888`] — SPI command encoding

pub mod bor;
pub mod identity;
pub mod output;
pub mod pins;
pub mod tle8888;
pub mod wiring;

pub use bor::BorLevel;
pub use identity::{FIRMWARE_ID, TARGET_MCU};
pub use output::TleOutput;
pub use pins::{BoardPins, GpioPin, GpioPort};
