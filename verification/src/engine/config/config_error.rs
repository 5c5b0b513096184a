//! [`ConfigError`].

use vstd::prelude::*;

verus! {

/// Why an [`EngineConfig`](crate::engine::EngineConfig) was rejected.
#[derive(Clone, Copy, Debug, PartialEq, Eq)]
pub enum ConfigError {
    /// Zero cylinders, or more than the board can drive.
    InvalidCylinderCount,
    /// The firing sequence does not name exactly one entry per cylinder.
    FiringSequenceLength,
    /// A firing-sequence entry is not a cylinder index.
    InvalidFiringIndex,
    /// A cylinder appears twice in the firing sequence.
    DuplicateFiringIndex,
    /// Some cylinder never fires.
    IncompleteFiringSequence,
}

} // verus!
