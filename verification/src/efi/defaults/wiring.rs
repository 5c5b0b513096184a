//! Map logical cylinder index to microRusEFI outputs.

use crate::efi::config::MAX_CYLINDERS;
use crate::efi::engines::profile::{EngineProfile, ProfileError};
use crate::pins::{BoardPins, GpioPin, GpioPort, TleOutput};
use vstd::prelude::*;

verus! {

pub const FUEL_PUMP: TleOutput = TleOutput::GpOut1;

pub const RADIATOR_FAN: TleOutput = TleOutput::GpOut2;

/// Injector output driving cylinder `cylinder` (injectors 1–4 in order).
pub open spec fn injector_of(cylinder: u8) -> Option<TleOutput> {
    crate::board::wiring::injector_of(cylinder)
}

/// Coil output for cylinder `cylinder`: PD4, PD3, PD2, PD1 in order.
pub open spec fn ignition_of(cylinder: u8) -> Option<GpioPin> {
    if cylinder == 0 {
        Some(GpioPin { port: GpioPort::D, pin: 4 })
    } else if cylinder == 1 {
        Some(GpioPin { port: GpioPort::D, pin: 3 })
    } else if cylinder == 2 {
        Some(GpioPin { port: GpioPort::D, pin: 2 })
    } else if cylinder == 3 {
        Some(GpioPin { port: GpioPort::D, pin: 1 })
    } else {
        None
    }
}

/// Why a profile does not fit the board.
#[derive(Clone, Copy, Debug, PartialEq, Eq)]
pub enum WiringError {
    /// The profile itself is invalid.
    Profile(ProfileError),
    /// More cylinders than the board has outputs for.
    TooManyCylinders,
    /// A cylinder has no injector or coil output.
    MissingOutput,
}

impl From<ProfileError> for WiringError {
    fn from(err: ProfileError) -> (r: Self) {
        WiringError::Profile(err)
    }
}

impl vstd::std_specs::convert::FromSpecImpl<ProfileError> for WiringError {
    open spec fn obeys_from_spec() -> bool {
        true
    }

    open spec fn from_spec(v: ProfileError) -> Self {
        WiringError::Profile(v)
    }
}

/// The crank trigger input pin.
pub fn trigger_crank(pins: &BoardPins) -> (r: GpioPin)
    ensures
        r == pins.trigger_crank,
{
    pins.trigger_crank
}

/// The cam trigger input pin.
pub fn trigger_cam(pins: &BoardPins) -> (r: GpioPin)
    ensures
        r == pins.trigger_cam,
{
    pins.trigger_cam
}

/// Injector output for a cylinder index, if the board has one.
pub fn injector_for(cylinder: u8) -> (r: Option<TleOutput>)
    ensures
        r == injector_of(cylinder),
        r is Some <==> cylinder < MAX_CYLINDERS,
{
    match cylinder {
        0 => Some(TleOutput::Injector1),
        1 => Some(TleOutput::Injector2),
        2 => Some(TleOutput::Injector3),
        3 => Some(TleOutput::Injector4),
        _ => None,
    }
}

/// Coil output pin for a cylinder index, if the board has one.
pub fn ignition_for(cylinder: u8) -> (r: Option<GpioPin>)
    ensures
        r == ignition_of(cylinder),
        r is Some <==> cylinder < MAX_CYLINDERS,
        r is Some ==> r.unwrap().port == GpioPort::D && r.unwrap().pin == 4 - cylinder,
{
    match cylinder {
        0 => Some(GpioPin::new(GpioPort::D, 4)),
        1 => Some(GpioPin::new(GpioPort::D, 3)),
        2 => Some(GpioPin::new(GpioPort::D, 2)),
        3 => Some(GpioPin::new(GpioPort::D, 1)),
        _ => None,
    }
}

/// What [`validate_profile`] answers: the profile's own verdict, wrapped.
pub open spec fn spec_validate_profile(profile: EngineProfile) -> Result<(), WiringError> {
    match profile.spec_validate() {
        Err(e) => Err(WiringError::Profile(e)),
        Ok(()) => Ok(()),
    }
}

/// The board verdict, stated directly: every valid profile fits (the board
/// drives up to MAX_CYLINDERS cylinders, each with an injector and a coil),
/// and an invalid one is rejected with the profile's own error; the board
/// never reports too many cylinders or a missing output.
pub open spec fn fit_verdict_matches(p: EngineProfile, r: Result<(), WiringError>) -> bool {
    &&& (r is Ok) <==> (p.spec_validate() is Ok)
    &&& match r {
        Ok(()) => true,
        Err(WiringError::Profile(e)) => p.spec_validate() == Err::<(), ProfileError>(e),
        Err(_) => false,
    }
    &&& (p.spec_validate() is Ok ==> 1 <= p.engine.cylinders <= MAX_CYLINDERS)
}

/// A profile fits the board exactly when it is valid; a valid profile has
/// between one and MAX_CYLINDERS cylinders, so the board never runs out of
/// outputs for it.
pub proof fn lemma_fit_verdict(p: EngineProfile)
    ensures
        fit_verdict_matches(p, spec_validate_profile(p)),
{
    crate::efi::engines::profile::lemma_profile_verdict(p);
}

/// Returns `Ok(())` when the profile fits microRusEFI (≤4 cylinders, outputs exist).
pub fn validate_profile(profile: &EngineProfile) -> (r: Result<(), WiringError>)
    requires
        profile.interval_sum_fits(),
    ensures
        r == spec_validate_profile(*profile),
        fit_verdict_matches(*profile, r),
{
    proof {
        lemma_fit_verdict(*profile);
    }
    match profile.validate() {
        Err(e) => return Err(WiringError::from(e)),
        Ok(()) => {},
    }
    if profile.engine.cylinders as usize > MAX_CYLINDERS {
        return Err(WiringError::TooManyCylinders);
    }
    let mut cyl: u8 = 0;
    while cyl < profile.engine.cylinders
        invariant
            profile.engine.cylinders <= MAX_CYLINDERS,
        decreases profile.engine.cylinders - cyl,
    {
        if injector_for(cyl).is_none() || ignition_for(cyl).is_none() {
            return Err(WiringError::MissingOutput);
        }
        cyl += 1;
    }
    Ok(())
}

} // verus!
