//! [`GpioPort`].

use vstd::prelude::*;

verus! {

/// STM32 GPIO port letter.
#[derive(Clone, Copy, Debug, PartialEq, Eq, Hash)]
pub enum GpioPort {
    A,
    B,
    C,
    D,
    E,
}

} // verus!
