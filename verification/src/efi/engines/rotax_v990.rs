//! Rotax V990 — 998 cc, 60° V-twin.

use crate::efi::config::{firing, EngineConfig, IgnitionMode, InjectionMode};
use crate::efi::engines::profile::EngineProfile;
use crate::trigger::{TriggerInputKind, TriggerSetup, TriggerWheel};
use vstd::prelude::*;

verus! {

pub const ID: &'static str = "Rotax V990";

/// The fields of the Rotax V990 profile.
pub open spec fn is_profile(p: EngineProfile) -> bool {
    &&& p.id@ == ID@
    &&& p.engine.cylinders == 2
    &&& p.engine.firing_sequence@ == seq![0u8, 1]
    &&& p.engine.injection_mode == InjectionMode::Sequential
    &&& p.engine.ignition_mode == IgnitionMode::IndividualCoils
    &&& p.engine.cranking_injection_mode == InjectionMode::Simultaneous
    &&& p.engine.displacement_cc == 998
    &&& p.engine.target_idle_rpm == 1_350
    &&& p.trigger == (TriggerSetup {
        crank_wheel: TriggerWheel { teeth: 6, missing: 0 },
        crank_input: TriggerInputKind::Vr,
        cam_input: TriggerInputKind::Hall,
        cam_required: true,
    })
    &&& p.fire_intervals_deg@ == seq![300u16, 420]
    &&& p.soft_rev_limit_rpm == 10_200
    &&& p.hard_rev_limit_rpm == 10_500
    &&& p.spark_plugs_per_cylinder == 1
}

/// The Rotax V990 engine profile (uneven 300°/420° firing).
pub fn profile() -> (p: EngineProfile)
    ensures
        is_profile(p),
{
    EngineProfile {
        id: ID,
        engine: EngineConfig {
            cylinders: 2,
            firing_sequence: firing::v_twin_front_rear(),
            injection_mode: InjectionMode::Sequential,
            ignition_mode: IgnitionMode::IndividualCoils,
            cranking_injection_mode: InjectionMode::Simultaneous,
            displacement_cc: 998,
            target_idle_rpm: 1_350,
        },
        trigger: TriggerSetup {
            crank_wheel: TriggerWheel { teeth: 6, missing: 0 },
            crank_input: TriggerInputKind::Vr,
            cam_input: TriggerInputKind::Hall,
            cam_required: true,
        },
        fire_intervals_deg: &[300, 420],
        soft_rev_limit_rpm: 10_200,
        hard_rev_limit_rpm: 10_500,
        spark_plugs_per_cylinder: 1,
    }
}

} // verus!
