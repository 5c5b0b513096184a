//! [`GpioPin`].

use super::GpioPort;
use vstd::prelude::*;

verus! {

/// STM32 port/pin identifier (e.g. `PD4` → port D, pin 4).
#[derive(Clone, Copy, Debug, PartialEq, Eq, Hash)]
pub struct GpioPin {
    pub port: GpioPort,
    pub pin: u8,
}

impl GpioPin {
    /// Pin handle from a port + pin index.
    pub fn new(port: GpioPort, pin: u8) -> (r: Self)
        ensures
            r.port == port,
            r.pin == pin,
    {
        GpioPin { port, pin }
    }
}

} // verus!
