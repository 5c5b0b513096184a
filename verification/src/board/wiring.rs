//! Logical cylinder → microRusEFI output mapping and profile validation.

use crate::board::{BoardPins, GpioPin, TleOutput};
use crate::engine::{EngineProfile, ProfileError, MAX_CYLINDERS};
use vstd::prelude::*;

verus! {

pub const FUEL_PUMP: TleOutput = TleOutput::GpOut1;

pub const RADIATOR_FAN: TleOutput = TleOutput::GpOut2;

pub const AUX_GP_OUT_3: TleOutput = TleOutput::GpOut3;

pub const AUX_GP_OUT_4: TleOutput = TleOutput::GpOut4;

pub const VVT_SOLENOID: TleOutput = TleOutput::LowSide1;

pub const IDLE_IAC: TleOutput = TleOutput::LowSide2;

/// Injector output driving cylinder `cylinder` (injectors 1–4 in order).
pub open spec fn injector_of(cylinder: u8) -> Option<TleOutput> {
    if cylinder == 0 {
        Some(TleOutput::Injector1)
    } else if cylinder == 1 {
        Some(TleOutput::Injector2)
    } else if cylinder == 2 {
        Some(TleOutput::Injector3)
    } else if cylinder == 3 {
        Some(TleOutput::Injector4)
    } else {
        None
    }
}

/// Why a profile does not fit the board.
#[derive(Clone, Copy, Debug, PartialEq, Eq)]
pub enum WiringError {
    /// The profile itself is invalid.
    Profile(ProfileError),
    /// More cylinders than the board has outputs for.
    TooManyCylinders,
    /// A firing-sequence entry has no injector or coil output.
    MissingOutput,
}

impl From<ProfileError> for WiringError {
    fn from(err: ProfileError) -> (r: Self) {
        WiringError::Profile(err)
    }
}

impl vstd::std_specs::convert::FromSpecImpl<ProfileError> for WiringError {
    open spec fn obeys_from_spec() -> bool {
        true
    }

    open spec fn from_spec(v: ProfileError) -> Self {
        WiringError::Profile(v)
    }
}

/// The crank trigger input pin.
pub fn trigger_crank(pins: &BoardPins) -> (r: GpioPin)
    ensures
        r == pins.trigger_crank,
{
    pins.trigger_crank
}

/// The cam trigger input pin.
pub fn trigger_cam(pins: &BoardPins) -> (r: GpioPin)
    ensures
        r == pins.trigger_cam,
{
    pins.trigger_cam
}

/// Injector output for a cylinder index, if the board has one.
pub fn injector_for(cylinder: u8) -> (r: Option<TleOutput>)
    ensures
        r == injector_of(cylinder),
        r is Some <==> cylinder < MAX_CYLINDERS,
{
    match cylinder {
        0 => Some(TleOutput::Injector1),
        1 => Some(TleOutput::Injector2),
        2 => Some(TleOutput::Injector3),
        3 => Some(TleOutput::Injector4),
        _ => None,
    }
}

/// Ignition output pin for a cylinder index, if the board has one.
pub fn ignition_for(pins: &BoardPins, cylinder: u8) -> (r: Option<GpioPin>)
    ensures
        r == if cylinder < 4 {
            Some(pins.ignition@[cylinder as int])
        } else {
            None
        },
{
    if (cylinder as usize) < pins.ignition.len() {
        Some(pins.ignition[cylinder as usize])
    } else {
        None
    }
}

/// Each of the first MAX_CYLINDERS cylinders has an injector of its own and
/// no other cylinder has one: distinct cylinders never share an injector.
pub proof fn lemma_injectors_are_distinct(a: u8, b: u8)
    ensures
        injector_of(a) is Some <==> a < MAX_CYLINDERS,
        a != b && injector_of(a) is Some ==> injector_of(a) != injector_of(b),
        injector_of(a) is Some ==> injector_of(a) != Some(FUEL_PUMP) && injector_of(a) != Some(
            RADIATOR_FAN,
        ),
{
}

/// What [`validate_profile`] answers: the profile's own verdict, wrapped.
pub open spec fn spec_validate_profile(profile: EngineProfile) -> Result<(), WiringError> {
    match profile.spec_validate() {
        Err(e) => Err(WiringError::Profile(e)),
        Ok(()) => Ok(()),
    }
}

/// The board verdict, stated directly: every valid profile fits (the board
/// drives up to MAX_CYLINDERS cylinders, each with an injector and a coil),
/// and an invalid one is rejected with the profile's own error; the board
/// never reports too many cylinders or a missing output.
pub open spec fn fit_verdict_matches(p: EngineProfile, r: Result<(), WiringError>) -> bool {
    &&& (r is Ok) <==> (p.spec_validate() is Ok)
    &&& match r {
        Ok(()) => true,
        Err(WiringError::Profile(e)) => p.spec_validate() == Err::<(), ProfileError>(e),
        Err(_) => false,
    }
    &&& (p.spec_validate() is Ok ==> 1 <= p.engine.cylinders <= MAX_CYLINDERS)
}

/// A profile fits the board exactly when it is valid; a valid profile has
/// between one and MAX_CYLINDERS cylinders, so the board never runs out of
/// outputs for it.
pub proof fn lemma_fit_verdict(p: EngineProfile)
    ensures
        fit_verdict_matches(p, spec_validate_profile(p)),
{
    crate::engine::profile::lemma_profile_verdict(p);
}

/// Returns `Ok(())` when the profile fits microRusEFI (≤4 cylinders, outputs exist).
pub fn validate_profile(profile: &EngineProfile) -> (r: Result<(), WiringError>)
    requires
        profile.interval_sum_fits(),
    ensures
        r == spec_validate_profile(*profile),
        fit_verdict_matches(*profile, r),
{
    proof {
        lemma_fit_verdict(*profile);
    }
    match profile.validate() {
        Err(e) => return Err(WiringError::from(e)),
        Ok(()) => {},
    }
    proof {
        crate::engine::config::lemma_valid_config_indices(profile.engine);
    }
    if profile.engine.cylinders as usize > MAX_CYLINDERS {
        return Err(WiringError::TooManyCylinders);
    }
    // Build the board pin map once, not once per cylinder.
    let pins = BoardPins::mre_f7();
    let seq = profile.engine.firing_sequence;
    let mut i: usize = 0;
    while i < seq.len()
        invariant
            seq@ == profile.engine.firing_sequence@,
            forall|k: int| 0 <= k < seq@.len() ==> #[trigger] seq@[k] < MAX_CYLINDERS,
        decreases seq@.len() - i,
    {
        let cyl = seq[i];
        if injector_for(cyl).is_none() || ignition_for(&pins, cyl).is_none() {
            return Err(WiringError::MissingOutput);
        }
        i += 1;
    }
    Ok(())
}

/// Every cylinder that a valid profile fires has an injector and a coil
/// output on the board, so a valid profile never lacks an output.
pub proof fn lemma_valid_profile_has_outputs(profile: EngineProfile, k: int)
    requires
        profile.spec_validate() is Ok,
        0 <= k < profile.engine.firing_sequence@.len(),
    ensures
        injector_of(profile.engine.firing_sequence@[k]) is Some,
        profile.engine.firing_sequence@[k] < 4,
{
    crate::engine::config::lemma_valid_config_indices(profile.engine);
}

/// The wiring tables agree with the pin map: on the microRusEFI map every
/// cylinder index below four has the same injector and the same coil pin in
/// the board wiring, the first-generation wiring and (front = 0, rear = 1)
/// the V990 wiring.
pub proof fn lemma_wiring_tables_agree(pins: BoardPins, cylinder: u8)
    requires
        crate::pins::is_mre_f7(pins),
        cylinder < 4,
    ensures
        crate::efi::defaults::wiring::ignition_of(cylinder) == Some(pins.ignition@[cylinder as int]),
        crate::efi::defaults::wiring::injector_of(cylinder) == injector_of(cylinder),
        cylinder == 0 ==> crate::board_mre::defaults::wiring::front_ignition()
            == pins.ignition@[0] && Some(crate::board_mre::defaults::wiring::FRONT_INJECTOR)
            == injector_of(0),
        cylinder == 1 ==> crate::board_mre::defaults::wiring::rear_ignition()
            == pins.ignition@[1] && Some(crate::board_mre::defaults::wiring::REAR_INJECTOR)
            == injector_of(1),
{
}

} // verus!
