use vstd::prelude::*;

pub mod adc;
pub mod buck;
pub mod charger;
pub mod common;
pub mod gpios;
pub mod leds;
pub mod pof;
pub mod registers;
pub mod ship;
pub mod sysreg;

verus! {

/// Errors of the driver.
#[derive(Clone, Copy, Debug, PartialEq, Eq, PartialOrd, Ord)]
pub enum NPM1300Error<E> {
    /// The bus transport failed; its own error is carried unchanged.
    I2c(E),
    /// The requested power-failure threshold is above the measured VSYS, so
    /// setting it would trip the comparator at once.
    InvalidPofVsysThreshold,
    /// The battery-current status reported a charger mode that is neither
    /// discharging nor charging; the field value is carried.
    UnexpectedChargerMode(u8),
}

} // verus!
