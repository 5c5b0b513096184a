//! Rotax V990 — 998 cc, 60° V-twin.
//!
//! Best-default profile for a microRusEFI swap, based on the Aprilia
//! RSV/Tuono OEM setup (6×60° crank + hall cam, single plug per cylinder,
//! sequential EFI).

use crate::efi_core::config::{EngineConfig, FiringOrder, IgnitionMode, InjectionMode};
use crate::trigger::{TriggerInputKind, TriggerSetup, TriggerWheel};
use vstd::prelude::*;

verus! {

pub const DISPLACEMENT_CC: u16 = 998;

pub const CYLINDERS: u8 = 2;

pub const V_ANGLE_DEG: u8 = 60;

/// Warm idle target — stable for a 998 cc sport twin without lugging.
pub const TARGET_IDLE_RPM: u16 = 1_350;

/// Soft limit begins pulling timing/fuel.
pub const SOFT_REV_LIMIT_RPM: u16 = 10_200;

/// Hard limit cuts spark/fuel.
pub const HARD_REV_LIMIT_RPM: u16 = 10_500;

/// Crank degrees between consecutive power strokes (uneven firing).
///
/// Rear fires 300° after front; front fires 420° after rear (720° total).
pub const FIRE_INTERVAL_DEG: [u16; 2] = [300, 420];

/// Cylinder index for the front bank (fires first in the 720° cycle).
pub const CYLINDER_FRONT: u8 = 0;

/// Cylinder index for the rear bank.
pub const CYLINDER_REAR: u8 = 1;

/// Complete best-default profile for this firmware build.
#[derive(Clone, Debug, PartialEq)]
pub struct Profile {
    pub engine: EngineConfig,
    pub trigger: TriggerSetup,
    pub soft_rev_limit_rpm: u16,
    pub hard_rev_limit_rpm: u16,
    /// One coil and one plug per cylinder (post-2004 Aprilia / Spyder pattern).
    pub spark_plugs_per_cylinder: u8,
}

/// The best-default engine configuration.
pub open spec fn is_best_config(c: EngineConfig) -> bool {
    c == EngineConfig {
        cylinders: CYLINDERS,
        firing_order: FiringOrder::RotaxV990,
        injection_mode: InjectionMode::Sequential,
        ignition_mode: IgnitionMode::IndividualCoils,
        cranking_injection_mode: InjectionMode::Simultaneous,
        displacement_cc: DISPLACEMENT_CC,
        target_idle_rpm: TARGET_IDLE_RPM,
    }
}

/// The best-default crank wheel: six reference pulses per revolution.
pub open spec fn best_wheel() -> TriggerWheel {
    TriggerWheel { teeth: 6, missing: 0 }
}

/// The best-default profile.
pub open spec fn is_best(p: Profile) -> bool {
    &&& is_best_config(p.engine)
    &&& p.trigger == TriggerSetup {
        crank_wheel: best_wheel(),
        crank_input: TriggerInputKind::Vr,
        cam_input: TriggerInputKind::Hall,
        cam_required: true,
    }
    &&& p.soft_rev_limit_rpm == SOFT_REV_LIMIT_RPM
    &&& p.hard_rev_limit_rpm == HARD_REV_LIMIT_RPM
    &&& p.spark_plugs_per_cylinder == 1
}

impl Profile {
    /// Recommended defaults for Rotax V990 on microRusEFI.
    pub fn best() -> (p: Self)
        ensures
            is_best(p),
    {
        Profile {
            engine: EngineConfig {
                cylinders: CYLINDERS,
                firing_order: FiringOrder::RotaxV990,
                injection_mode: InjectionMode::Sequential,
                ignition_mode: IgnitionMode::IndividualCoils,
                cranking_injection_mode: InjectionMode::Simultaneous,
                displacement_cc: DISPLACEMENT_CC,
                target_idle_rpm: TARGET_IDLE_RPM,
            },
            trigger: TriggerSetup {
                crank_wheel: TriggerWheel { teeth: 6, missing: 0 },
                crank_input: TriggerInputKind::Vr,
                cam_input: TriggerInputKind::Hall,
                cam_required: true,
            },
            soft_rev_limit_rpm: SOFT_REV_LIMIT_RPM,
            hard_rev_limit_rpm: HARD_REV_LIMIT_RPM,
            spark_plugs_per_cylinder: 1,
        }
    }
}

/// Shorthand for [`Profile::best`].
pub fn profile() -> (p: Profile)
    ensures
        is_best(p),
{
    Profile::best()
}

/// Default [`EngineConfig`] extracted from [`Profile::best`].
pub fn engine_config() -> (c: EngineConfig)
    ensures
        is_best_config(c),
{
    Profile::best().engine
}

/// Crank wheel from the best profile (6 reference pulses/rev, 60° apart).
pub fn trigger_wheel() -> (w: TriggerWheel)
    ensures
        w == best_wheel(),
{
    Profile::best().trigger.crank_wheel
}

/// Effective crank edges per revolution for RPM calculation.
pub fn trigger_edges_per_rev() -> (r: u8)
    ensures
        r == 6,
{
    trigger_wheel().effective_edges_per_rev()
}

/// Crank angle (degrees) from the start of the current cylinder's power stroke
/// to the next cylinder's power stroke.
pub fn fire_interval_after(cylinder: u8) -> (r: Option<u16>)
    ensures
        r == if cylinder == CYLINDER_FRONT {
            Some(300u16)
        } else if cylinder == CYLINDER_REAR {
            Some(420u16)
        } else {
            None
        },
{
    match cylinder {
        CYLINDER_FRONT => Some(FIRE_INTERVAL_DEG[0]),
        CYLINDER_REAR => Some(FIRE_INTERVAL_DEG[1]),
        _ => None,
    }
}

} // verus!
