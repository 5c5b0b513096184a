//! Core engine-control types: the firing-order based configuration and the
//! Rotax V990 best-default profile.

pub mod config;

pub use crate::engines::rotax_v990::profile as rotax_v990_profile;
pub use config::EngineConfig;
