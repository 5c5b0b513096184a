//! STM32 GPIO and peripheral assignments for microRusEFI (rev 0.6.x wiring).
//!
//! Injectors and several outputs route through the onboard TLE8888 smart driver;
//! logical connector names are preserved as documentation on each field.

pub use crate::board::output::TleOutput;
pub use crate::board::pins::{GpioPin, GpioPort};

use vstd::prelude::*;

verus! {

/// MCU pin names for the microRusEFI PCB (STM32F767).
#[derive(Clone, Copy, Debug, PartialEq, Eq)]
pub struct BoardPins {
    // --- Status LEDs (on PCB) ---
    pub led_comms: GpioPin,
    pub led_running: GpioPin,
    pub led_warning: GpioPin,
    pub led_critical: GpioPin,
    // --- Ignition (TC4427, 5 V logic) ---
    pub ignition: [GpioPin; 4],
    // --- Trigger inputs ---
    /// Primary crank — VR conditioner via TLE8888 (pin 45).
    pub trigger_crank: GpioPin,
    /// Cam hall input (pin 25).
    pub trigger_cam: GpioPin,
    // --- TLE8888 (injectors + low-side outputs) SPI1 ---
    pub tle8888_spi_mosi: GpioPin,
    pub tle8888_spi_miso: GpioPin,
    pub tle8888_spi_sck: GpioPin,
    pub tle8888_spi_cs: GpioPin,
    /// Active-high enable for TLE8888 injector outputs (PD11 + pulldown).
    pub tle8888_inj_en: GpioPin,
    /// Active-high enable for TLE8888 ignition outputs (PD10 + pulldown).
    pub tle8888_ign_en: GpioPin,
    // --- Electronic throttle (TLE9201) ---
    pub etb_pwm: GpioPin,
    pub etb_dir_a: GpioPin,
    /// TLE9201 DIS — low disables the H-bridge.
    pub etb_disable: GpioPin,
    // --- CAN ---
    pub can_tx: GpioPin,
    pub can_rx: GpioPin,
    // --- Onboard microSD (SPI2, v0.6.0+) ---
    pub sd_spi_mosi: GpioPin,
    pub sd_spi_miso: GpioPin,
    pub sd_spi_sck: GpioPin,
    pub sd_spi_cs: GpioPin,
    // --- Expansion SPI3 (header, disabled by default) ---
    pub exp_spi_mosi: GpioPin,
    pub exp_spi_miso: GpioPin,
    pub exp_spi_sck: GpioPin,
    // --- Console UART (USART3 on J12/J13) ---
    pub console_tx: GpioPin,
    pub console_rx: GpioPin,
}

/// Pin `n` of port `port`.
pub open spec fn pin(port: GpioPort, n: u8) -> GpioPin {
    GpioPin { port, pin: n }
}

/// The microRusEFI F7 pin map (rusEFI `board_configuration.cpp` defaults).
pub open spec fn is_mre_f7(p: BoardPins) -> bool {
    &&& p.led_comms == pin(GpioPort::E, 2)
    &&& p.led_running == pin(GpioPort::E, 4)
    &&& p.led_warning == pin(GpioPort::E, 1)
    &&& p.led_critical == pin(GpioPort::E, 3)
    &&& p.ignition@ == seq![
        pin(GpioPort::D, 4),
        pin(GpioPort::D, 3),
        pin(GpioPort::D, 2),
        pin(GpioPort::D, 1),
    ]
    &&& p.trigger_crank == pin(GpioPort::C, 6)
    &&& p.trigger_cam == pin(GpioPort::A, 5)
    &&& p.tle8888_spi_mosi == pin(GpioPort::B, 5)
    &&& p.tle8888_spi_miso == pin(GpioPort::B, 4)
    &&& p.tle8888_spi_sck == pin(GpioPort::B, 3)
    &&& p.tle8888_spi_cs == pin(GpioPort::D, 5)
    &&& p.tle8888_inj_en == pin(GpioPort::D, 11)
    &&& p.tle8888_ign_en == pin(GpioPort::D, 10)
    &&& p.etb_pwm == pin(GpioPort::C, 7)
    &&& p.etb_dir_a == pin(GpioPort::A, 8)
    &&& p.etb_disable == pin(GpioPort::C, 8)
    &&& p.can_tx == pin(GpioPort::B, 6)
    &&& p.can_rx == pin(GpioPort::B, 12)
    &&& p.sd_spi_mosi == pin(GpioPort::B, 15)
    &&& p.sd_spi_miso == pin(GpioPort::B, 14)
    &&& p.sd_spi_sck == pin(GpioPort::B, 13)
    &&& p.sd_spi_cs == pin(GpioPort::E, 15)
    &&& p.exp_spi_mosi == pin(GpioPort::C, 12)
    &&& p.exp_spi_miso == pin(GpioPort::C, 11)
    &&& p.exp_spi_sck == pin(GpioPort::C, 10)
    &&& p.console_tx == pin(GpioPort::B, 10)
    &&& p.console_rx == pin(GpioPort::B, 11)
}

impl BoardPins {
    /// Pin map matching rusEFI `board_configuration.cpp` defaults for MRE F7.
    pub fn mre_f7() -> (r: Self)
        ensures
            is_mre_f7(r),
    {
        BoardPins {
            led_comms: GpioPin::new(GpioPort::E, 2),
            led_running: GpioPin::new(GpioPort::E, 4),
            led_warning: GpioPin::new(GpioPort::E, 1),
            led_critical: GpioPin::new(GpioPort::E, 3),
            ignition: [
                GpioPin::new(GpioPort::D, 4),  // pin 9  — INJ/IGN 1
                GpioPin::new(GpioPort::D, 3),  // pin 10
                GpioPin::new(GpioPort::D, 2),  // pin 11
                GpioPin::new(GpioPort::D, 1),  // pin 12
            ],
            trigger_crank: GpioPin::new(GpioPort::C, 6),  // pin 45 VR/Hall
            trigger_cam: GpioPin::new(GpioPort::A, 5),  // pin 25 Hall cam
            tle8888_spi_mosi: GpioPin::new(GpioPort::B, 5),
            tle8888_spi_miso: GpioPin::new(GpioPort::B, 4),
            tle8888_spi_sck: GpioPin::new(GpioPort::B, 3),
            tle8888_spi_cs: GpioPin::new(GpioPort::D, 5),
            tle8888_inj_en: GpioPin::new(GpioPort::D, 11),
            tle8888_ign_en: GpioPin::new(GpioPort::D, 10),
            etb_pwm: GpioPin::new(GpioPort::C, 7),
            etb_dir_a: GpioPin::new(GpioPort::A, 8),
            etb_disable: GpioPin::new(GpioPort::C, 8),
            can_tx: GpioPin::new(GpioPort::B, 6),
            can_rx: GpioPin::new(GpioPort::B, 12),
            sd_spi_mosi: GpioPin::new(GpioPort::B, 15),
            sd_spi_miso: GpioPin::new(GpioPort::B, 14),
            sd_spi_sck: GpioPin::new(GpioPort::B, 13),
            sd_spi_cs: GpioPin::new(GpioPort::E, 15),
            exp_spi_mosi: GpioPin::new(GpioPort::C, 12),
            exp_spi_miso: GpioPin::new(GpioPort::C, 11),
            exp_spi_sck: GpioPin::new(GpioPort::C, 10),
            console_tx: GpioPin::new(GpioPort::B, 10),
            console_rx: GpioPin::new(GpioPort::B, 11),
        }
    }
}

/// Default rusEFI role of each TLE8888 output on microRusEFI.
pub open spec fn default_function_text(o: TleOutput) -> Seq<char> {
    match o {
        TleOutput::Injector1 => "Injector 1 (pin 37)"@,
        TleOutput::Injector2 => "Injector 2 (pin 38)"@,
        TleOutput::Injector3 => "Injector 3 (pin 41)"@,
        TleOutput::Injector4 => "Injector 4 (pin 42)"@,
        TleOutput::GpOut1 => "Fuel pump (pin 35)"@,
        TleOutput::GpOut2 => "Radiator fan (pin 34)"@,
        TleOutput::GpOut3 => "General purpose (pin 33)"@,
        TleOutput::GpOut4 => "General purpose (pin 43)"@,
        TleOutput::LowSide1 => "VVT / high-current solenoid (pin 7)"@,
        TleOutput::LowSide2 => "Idle IAC solenoid (pin 3)"@,
    }
}

impl TleOutput {
    /// Default rusEFI output assignment on microRusEFI.
    pub fn default_function(self) -> (r: &'static str)
        ensures
            r@ == default_function_text(self),
    {
        match self {
            TleOutput::Injector1 => "Injector 1 (pin 37)",
            TleOutput::Injector2 => "Injector 2 (pin 38)",
            TleOutput::Injector3 => "Injector 3 (pin 41)",
            TleOutput::Injector4 => "Injector 4 (pin 42)",
            TleOutput::GpOut1 => "Fuel pump (pin 35)",
            TleOutput::GpOut2 => "Radiator fan (pin 34)",
            TleOutput::GpOut3 => "General purpose (pin 33)",
            TleOutput::GpOut4 => "General purpose (pin 43)",
            TleOutput::LowSide1 => "VVT / high-current solenoid (pin 7)",
            TleOutput::LowSide2 => "Idle IAC solenoid (pin 3)",
        }
    }
}

} // verus!
