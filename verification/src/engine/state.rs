//! Event counts per engine cycle, derived from the configuration.
//!
//! The live runtime state (sensor readings, base pulse width) is floating
//! point and lives with the firmware; the integer scheduling decisions it
//! relies on are here.

use crate::engine::{EngineConfig, EngineProfile, IgnitionMode, InjectionMode};
use vstd::prelude::*;

verus! {

/// Half of `n`, rounded up.
pub open spec fn half_up(n: u8) -> int {
    (n + 1) / 2
}

/// Fuel events scheduled per engine cycle for the configured injection mode.
pub open spec fn spec_injection_events(config: EngineConfig) -> int {
    match config.injection_mode {
        InjectionMode::Simultaneous => 1,
        InjectionMode::Sequential => config.cylinders as int,
        InjectionMode::Batch => half_up(config.cylinders),
    }
}

/// Spark events scheduled per engine cycle: one per coil and plug, capped
/// at `u8::MAX`.
pub open spec fn spec_ignition_events(profile: EngineProfile) -> int {
    let coils = match profile.engine.ignition_mode {
        IgnitionMode::IndividualCoils => profile.engine.cylinders as int,
        IgnitionMode::WastedSpark => half_up(profile.engine.cylinders),
    };
    if coils * profile.spark_plugs_per_cylinder > u8::MAX {
        u8::MAX as int
    } else {
        coils * profile.spark_plugs_per_cylinder
    }
}

/// Fuel events per cycle, stated directly: one when all injectors fire
/// together, one per cylinder in sequence, and one per pair of cylinders in
/// batch mode (an odd cylinder out gets an event of its own), i.e. the
/// smallest count `e` with `2e ≥ cylinders`.
pub open spec fn injection_events_match(config: EngineConfig, r: int) -> bool {
    let c = config.cylinders as int;
    &&& config.injection_mode == InjectionMode::Simultaneous ==> r == 1
    &&& config.injection_mode == InjectionMode::Sequential ==> r == c
    &&& config.injection_mode == InjectionMode::Batch ==> {
        &&& 2 * r >= c
        &&& 2 * r <= c + 1
        &&& r == (c + 1) / 2
    }
}

/// Fuel events per cycle follow the injection mode: 1, the cylinder count,
/// or half the cylinders rounded up.
pub proof fn lemma_injection_events(config: EngineConfig)
    ensures
        injection_events_match(config, spec_injection_events(config)),
{
}

/// Spark events per cycle, stated directly: coils (one per cylinder, or one
/// per pair of cylinders with wasted spark, an odd one out keeping its own)
/// times plugs per cylinder, never more than `u8::MAX`.
pub open spec fn ignition_events_match(profile: EngineProfile, r: int) -> bool {
    let c = profile.engine.cylinders as int;
    let plugs = profile.spark_plugs_per_cylinder as int;
    let coils = if profile.engine.ignition_mode == IgnitionMode::IndividualCoils {
        c
    } else {
        (c + 1) / 2
    };
    &&& 0 <= r <= u8::MAX
    &&& coils * plugs <= u8::MAX ==> r == coils * plugs
    &&& coils * plugs > u8::MAX ==> r == u8::MAX
    &&& profile.engine.ignition_mode == IgnitionMode::WastedSpark ==> 2 * coils >= c && 2 * coils
        <= c + 1
}

/// Spark events per cycle are coils × plugs, capped at `u8::MAX`.
pub proof fn lemma_ignition_events(profile: EngineProfile)
    ensures
        ignition_events_match(profile, spec_ignition_events(profile)),
{
}

/// `n / 2` rounded up, without overflowing at `u8::MAX`.
fn div_ceil_2(n: u8) -> (r: u8)
    ensures
        r == half_up(n),
{
    n / 2 + n % 2
}

/// Fuel events scheduled per engine cycle for the configured injection mode.
pub fn injection_events_per_cycle(config: &EngineConfig) -> (r: u8)
    ensures
        r == spec_injection_events(*config),
        injection_events_match(*config, r as int),
{
    proof {
        lemma_injection_events(*config);
    }
    match config.injection_mode {
        InjectionMode::Simultaneous => 1,
        InjectionMode::Sequential => config.cylinders,
        InjectionMode::Batch => div_ceil_2(config.cylinders),
    }
}

/// Spark events scheduled per engine cycle.
pub fn ignition_events_per_cycle(profile: &EngineProfile) -> (r: u8)
    ensures
        r == spec_ignition_events(*profile),
        ignition_events_match(*profile, r as int),
{
    proof {
        lemma_ignition_events(*profile);
    }
    let coils = match profile.engine.ignition_mode {
        IgnitionMode::IndividualCoils => profile.engine.cylinders,
        // Wasted-spark pairs share coils; each coil fires once per 360° cam revolution.
        IgnitionMode::WastedSpark => div_ceil_2(profile.engine.cylinders),
    };
    let plugs = profile.spark_plugs_per_cylinder;
    if plugs == 0 {
        proof {
            let c = profile.engine.cylinders as int;
            assert(c * 0 == 0 && half_up(profile.engine.cylinders) * 0 == 0 && ((c + 1) / 2) * 0
                == 0) by (nonlinear_arith);
        }
        return 0;
    }
    if coils > u8::MAX / plugs {
        proof {
            assert(coils * plugs > u8::MAX) by (nonlinear_arith)
                requires
                    coils > u8::MAX / plugs,
                    plugs > 0,
            ;
        }
        u8::MAX
    } else {
        proof {
            assert(coils * plugs <= u8::MAX) by (nonlinear_arith)
                requires
                    coils <= u8::MAX / plugs,
                    plugs > 0,
            ;
        }
        coils * plugs
    }
}

/// Number of equal parts the fixed cranking pulse is split into: the whole
/// pulse when all injectors fire together, one part per cylinder (at least
/// one) for sequential or batch cranking.
pub fn cranking_pulse_divisor(config: &EngineConfig) -> (r: u8)
    ensures
        r == match config.cranking_injection_mode {
            InjectionMode::Simultaneous => 1,
            _ => if config.cylinders == 0 {
                1
            } else {
                config.cylinders
            },
        },
        r >= 1,
{
    match config.cranking_injection_mode {
        InjectionMode::Simultaneous => 1,
        InjectionMode::Sequential | InjectionMode::Batch => if config.cylinders == 0 {
            1
        } else {
            config.cylinders
        },
    }
}

/// Factor on the running base pulse: batch injection fires fewer, longer
/// events per cycle (twice the pulse), the other modes take it as is.
pub fn running_pulse_multiplier(config: &EngineConfig) -> (r: u8)
    ensures
        r == if config.injection_mode == InjectionMode::Batch {
            2u8
        } else {
            1u8
        },
{
    match config.injection_mode {
        InjectionMode::Batch => 2,
        InjectionMode::Simultaneous | InjectionMode::Sequential => 1,
    }
}

} // verus!
