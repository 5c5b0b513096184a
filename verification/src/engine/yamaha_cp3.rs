//! Yamaha CP3 — 890 cc inline triple (Crossplane Concept 3-cylinder).

use crate::engine::firing;
use crate::engine::{CYCLE_DEGREES_FOUR_STROKE, EngineConfig, EngineProfile};
use crate::engine::{IgnitionMode, InjectionMode};
use crate::trigger::{TriggerInputKind, TriggerSetup, TriggerWheel};
use vstd::prelude::*;

verus! {

/// Profile identifier reported over comms.
pub const ID: &'static str = "Yamaha CP3";

/// The fields of the Yamaha CP3 profile.
pub open spec fn is_profile(p: EngineProfile) -> bool {
    &&& p.id@ == ID@
    &&& p.engine.cylinders == 3
    &&& p.engine.firing_sequence@ == seq![0u8, 1, 2]
    &&& p.engine.injection_mode == InjectionMode::Sequential
    &&& p.engine.ignition_mode == IgnitionMode::IndividualCoils
    &&& p.engine.cranking_injection_mode == InjectionMode::Simultaneous
    &&& p.engine.displacement_cc == 890
    &&& p.engine.target_idle_rpm == 1_200
    &&& p.trigger == (TriggerSetup {
        crank_wheel: TriggerWheel { teeth: 12, missing: 1 },
        crank_input: TriggerInputKind::Hall,
        cam_input: TriggerInputKind::Hall,
        cam_required: true,
    })
    &&& p.cycle_degrees == CYCLE_DEGREES_FOUR_STROKE
    &&& p.fire_intervals_deg@ == seq![240u16, 240, 240]
    &&& p.soft_rev_limit_rpm == 10_400
    &&& p.hard_rev_limit_rpm == 11_000
    &&& p.spark_plugs_per_cylinder == 1
}

/// The Yamaha CP3 (XSR900) engine profile.
///
/// The trigger geometry and rev limits are placeholders until measured on
/// the engine; the 240° even-firing spacing is engine architecture.
pub fn profile() -> (p: EngineProfile)
    ensures
        is_profile(p),
{
    EngineProfile {
        id: ID,
        engine: EngineConfig {
            cylinders: 3,
            firing_sequence: firing::inline_3_123(),
            injection_mode: InjectionMode::Sequential,
            ignition_mode: IgnitionMode::IndividualCoils,
            cranking_injection_mode: InjectionMode::Simultaneous,
            displacement_cc: 890,
            target_idle_rpm: 1_200,
        },
        trigger: TriggerSetup {
            crank_wheel: TriggerWheel { teeth: 12, missing: 1 },
            crank_input: TriggerInputKind::Hall,
            cam_input: TriggerInputKind::Hall,
            cam_required: true,
        },
        cycle_degrees: CYCLE_DEGREES_FOUR_STROKE,
        // Even-firing triple: 240° spacing is engine architecture, not a guess.
        fire_intervals_deg: &[240, 240, 240],
        soft_rev_limit_rpm: 10_400,
        hard_rev_limit_rpm: 11_000,
        spark_plugs_per_cylinder: 1,
    }
}

} // verus!
