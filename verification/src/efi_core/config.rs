//! Engine configuration persisted in flash / tuned at runtime.

pub use crate::engine::{IgnitionMode, InjectionMode};

use vstd::prelude::*;

verus! {

/// Number of cylinders supported by the core engine model.
pub const MAX_CYLINDERS: usize = 4;

/// Standard firing orders.
#[derive(Clone, Copy, Debug, PartialEq, Eq, Default)]
pub enum FiringOrder {
    /// 1-3-4-2 (common inline-4, e.g. Toyota/BMW/Miata).
    #[default]
    OneThreeFourTwo,
    /// 1-3-2-4 (common V4 / some fours).
    OneThreeTwoFour,
    /// 1-2-3-4 (some industrial / flat engines).
    OneTwoThreeFour,
    /// Rotax V990 60° V-twin: front (0) then rear (1), 300°/420° crank spacing.
    RotaxV990,
}

/// Cylinder indices (0-based) of a firing order, in firing sequence.
pub open spec fn order_sequence(order: FiringOrder) -> Seq<u8> {
    match order {
        FiringOrder::OneThreeFourTwo => seq![0u8, 2, 3, 1],
        FiringOrder::OneThreeTwoFour => seq![0u8, 2, 1, 3],
        FiringOrder::OneTwoThreeFour => seq![0u8, 1, 2, 3],
        FiringOrder::RotaxV990 => seq![0u8, 1],
    }
}

impl FiringOrder {
    /// Cylinder indices (0-based) in firing sequence.
    pub fn sequence(self) -> (r: &'static [u8])
        ensures
            r@ == order_sequence(self),
    {
        match self {
            FiringOrder::OneThreeFourTwo => &[0, 2, 3, 1],
            FiringOrder::OneThreeTwoFour => &[0, 2, 1, 3],
            FiringOrder::OneTwoThreeFour => &[0, 1, 2, 3],
            FiringOrder::RotaxV990 => &[0, 1],
        }
    }
}

/// Top-level tunable engine configuration.
#[derive(Clone, Debug, PartialEq)]
pub struct EngineConfig {
    pub cylinders: u8,
    pub firing_order: FiringOrder,
    pub injection_mode: InjectionMode,
    pub ignition_mode: IgnitionMode,
    pub cranking_injection_mode: InjectionMode,
    /// Displacement in cubic centimeters (used for load modeling).
    pub displacement_cc: u16,
    /// Target idle RPM when closed-loop idle is active.
    pub target_idle_rpm: u16,
}

/// Why an [`EngineConfig`] was rejected.
#[derive(Clone, Copy, Debug, PartialEq, Eq)]
pub enum ConfigError {
    /// Zero cylinders, or more than the core model supports.
    InvalidCylinderCount,
}

impl Default for EngineConfig {
    /// The Rotax V990 best-default configuration.
    fn default() -> (r: Self)
        ensures
            crate::engines::rotax_v990::is_best_config(r),
    {
        crate::engines::rotax_v990::engine_config()
    }
}

impl EngineConfig {
    /// Number of cylinders configured.
    pub fn cylinder_count(&self) -> (r: usize)
        ensures
            r == self.cylinders,
    {
        self.cylinders as usize
    }

    /// Check that the cylinder count is in `1..=MAX_CYLINDERS`.
    pub fn validate(&self) -> (r: Result<(), ConfigError>)
        ensures
            r is Ok <==> 1 <= self.cylinders <= MAX_CYLINDERS,
            r is Err ==> r == Err::<(), ConfigError>(ConfigError::InvalidCylinderCount),
    {
        if self.cylinders == 0 || self.cylinders as usize > MAX_CYLINDERS {
            return Err(ConfigError::InvalidCylinderCount);
        }
        Ok(())
    }
}

/// Every standard firing order fires each of its cylinders exactly once.
pub proof fn lemma_firing_orders_are_permutations(order: FiringOrder)
    ensures
        crate::engine::config::is_firing_permutation(
            order_sequence(order),
            order_sequence(order).len() as u8,
        ),
        order == FiringOrder::RotaxV990 ==> order_sequence(order).len() == 2,
        order != FiringOrder::RotaxV990 ==> order_sequence(order).len() == 4,
{
}

} // verus!
