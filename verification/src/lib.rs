//! Engine-control logic for the microRusEFI board: engine configuration and
//! profile validation, board wiring, TLE8888 command encoding and trigger-edge
//! statistics, each with a machine-checked contract.
//!
//! | Module | What it owns |
//! |---|---|
//! | [`engine`] | configuration, profiles, event counts (current engine model) |
//! | [`engines`] | Rotax V990 best default, cycle-aware profiles |
//! | [`efi`] | the first-generation engine model and its default wiring |
//! | [`efi_core`] | the firing-order based configuration |
//! | [`board`] | pin map, outputs, wiring, brown-out, TLE8888 commands |
//! | [`board_mre`] | Rotax V990 defaults on microRusEFI |
//! | [`pins`] | the microRusEFI F7 pin map |
//! | [`trigger`] | trigger wheel geometry and sensor kinds |
//! | [`datalog`] | trigger-edge interval statistics |

pub mod board;
pub mod board_mre;
pub mod datalog;
pub mod efi;
pub mod efi_core;
pub mod engine;
pub mod engines;
pub mod pins;
pub mod trigger;

pub use board::{BoardPins, FIRMWARE_ID, TARGET_MCU, TleOutput};
pub use engine::{CYCLE_DEGREES_FOUR_STROKE, EngineConfig, EngineProfile};
pub use engine::active_profile;
