//! Logical outputs and sensors for the V990 on microRusEFI.

use crate::engines::rotax_v990::{CYLINDER_FRONT, CYLINDER_REAR};
use crate::pins::{BoardPins, GpioPin, GpioPort, TleOutput};
use vstd::prelude::*;

verus! {

/// Front cylinder — injector 1.
pub const FRONT_INJECTOR: TleOutput = TleOutput::Injector1;

/// Rear cylinder — injector 2.
pub const REAR_INJECTOR: TleOutput = TleOutput::Injector2;

/// Fuel pump relay (rusEFI MRE default GP out 1).
pub const FUEL_PUMP: TleOutput = TleOutput::GpOut1;

/// Radiator fan relay (rusEFI MRE default GP out 2).
pub const RADIATOR_FAN: TleOutput = TleOutput::GpOut2;

/// Front cylinder coil — PD4.
pub open spec fn front_ignition() -> GpioPin {
    GpioPin { port: GpioPort::D, pin: 4 }
}

/// Rear cylinder coil — PD3.
pub open spec fn rear_ignition() -> GpioPin {
    GpioPin { port: GpioPort::D, pin: 3 }
}

/// The crank trigger input pin.
pub fn trigger_crank(pins: &BoardPins) -> (r: GpioPin)
    ensures
        r == pins.trigger_crank,
{
    pins.trigger_crank
}

/// The cam trigger input pin.
pub fn trigger_cam(pins: &BoardPins) -> (r: GpioPin)
    ensures
        r == pins.trigger_cam,
{
    pins.trigger_cam
}

/// Injector output of the front or rear cylinder.
pub fn injector_for(cylinder: u8) -> (r: Option<TleOutput>)
    ensures
        r == if cylinder == CYLINDER_FRONT {
            Some(FRONT_INJECTOR)
        } else if cylinder == CYLINDER_REAR {
            Some(REAR_INJECTOR)
        } else {
            None
        },
{
    match cylinder {
        CYLINDER_FRONT => Some(FRONT_INJECTOR),
        CYLINDER_REAR => Some(REAR_INJECTOR),
        _ => None,
    }
}

/// Coil output pin of the front or rear cylinder.
pub fn ignition_for(cylinder: u8) -> (r: Option<GpioPin>)
    ensures
        r == if cylinder == CYLINDER_FRONT {
            Some(front_ignition())
        } else if cylinder == CYLINDER_REAR {
            Some(rear_ignition())
        } else {
            None
        },
{
    match cylinder {
        CYLINDER_FRONT => Some(GpioPin::new(GpioPort::D, 4)),
        CYLINDER_REAR => Some(GpioPin::new(GpioPort::D, 3)),
        _ => None,
    }
}

} // verus!
