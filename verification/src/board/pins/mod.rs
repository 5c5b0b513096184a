//! Board pin map: [`BoardPins`] / [`GpioPin`] / [`GpioPort`].

mod gpio_pin;
mod gpio_port;

pub use crate::pins::BoardPins;
pub use gpio_pin::GpioPin;
pub use gpio_port::GpioPort;
