use vstd::prelude::*;
use vstd::std_specs::convert::{FromSpecImpl, TryFromSpecImpl};

use crate::registers::{write_op, write_reg, Register, RegisterOp};

verus! {

/// LED mode configuration
#[derive(Copy, Clone, Debug, PartialEq, Eq, Structural)]
pub enum LedMode {
    /// Error condition from charger
    ChargingError,
    /// Charging indicator (on during charging)
    Charging,
    /// Driven by host
    Host,
    /// Not used
    NotUsed,
}

impl LedMode {
    /// The register code of the value.
    pub open spec fn code(self) -> u8 {
        match self {
            LedMode::ChargingError => 0,
            LedMode::Charging => 1,
            LedMode::Host => 2,
            LedMode::NotUsed => 3,
        }
    }

    /// The value that the register code `v` stands for, if any.
    pub open spec fn decode(v: u8) -> Result<LedMode, ()> {
        if v == 0 {
            Ok(LedMode::ChargingError)
        } else if v == 1 {
            Ok(LedMode::Charging)
        } else if v == 2 {
            Ok(LedMode::Host)
        } else if v == 3 {
            Ok(LedMode::NotUsed)
        } else {
            Err(())
        }
    }
}

impl TryFrom<u8> for LedMode {
    type Error = ();

    fn try_from(value: u8) -> (r: Result<Self, Self::Error>) {
        match value {
            0 => Ok(LedMode::ChargingError),
            1 => Ok(LedMode::Charging),
            2 => Ok(LedMode::Host),
            3 => Ok(LedMode::NotUsed),
            _ => Err(()),
        }
    }
}

impl TryFromSpecImpl<u8> for LedMode {
    open spec fn obeys_try_from_spec() -> bool {
        true
    }

    open spec fn try_from_spec(v: u8) -> Result<LedMode, ()> {
        LedMode::decode(v)
    }
}

impl From<LedMode> for u8 {
    fn from(value: LedMode) -> (r: u8) {
        match value {
            LedMode::ChargingError => 0,
            LedMode::Charging => 1,
            LedMode::Host => 2,
            LedMode::NotUsed => 3,
        }
    }
}

impl FromSpecImpl<LedMode> for u8 {
    open spec fn obeys_from_spec() -> bool {
        true
    }

    open spec fn from_spec(v: LedMode) -> u8 {
        v.code()
    }
}

/// LED driver set pulse
#[derive(Copy, Clone, Debug, PartialEq, Eq, Structural)]
pub enum LedDrvOn {
    /// No effect
    NoEffect,
    /// Turn on LED if LED mode is set to Host
    SetLed,
}

impl LedDrvOn {
    /// The register code of the value.
    pub open spec fn code(self) -> u8 {
        match self {
            LedDrvOn::NoEffect => 0,
            LedDrvOn::SetLed => 1,
        }
    }

    /// The value that the register code `v` stands for, if any.
    pub open spec fn decode(v: u8) -> Result<LedDrvOn, ()> {
        if v == 0 {
            Ok(LedDrvOn::NoEffect)
        } else if v == 1 {
            Ok(LedDrvOn::SetLed)
        } else {
            Err(())
        }
    }
}

impl TryFrom<u8> for LedDrvOn {
    type Error = ();

    fn try_from(value: u8) -> (r: Result<Self, Self::Error>) {
        match value {
            0 => Ok(LedDrvOn::NoEffect),
            1 => Ok(LedDrvOn::SetLed),
            _ => Err(()),
        }
    }
}

impl TryFromSpecImpl<u8> for LedDrvOn {
    open spec fn obeys_try_from_spec() -> bool {
        true
    }

    open spec fn try_from_spec(v: u8) -> Result<LedDrvOn, ()> {
        LedDrvOn::decode(v)
    }
}

impl From<LedDrvOn> for u8 {
    fn from(value: LedDrvOn) -> (r: u8) {
        match value {
            LedDrvOn::NoEffect => 0,
            LedDrvOn::SetLed => 1,
        }
    }
}

impl FromSpecImpl<LedDrvOn> for u8 {
    open spec fn obeys_from_spec() -> bool {
        true
    }

    open spec fn from_spec(v: LedDrvOn) -> u8 {
        v.code()
    }
}

/// LED driver clear pulse
#[derive(Copy, Clone, Debug, PartialEq, Eq, Structural)]
pub enum LedDrvOff {
    /// No effect
    NoEffect,
    /// Turn off LED if LED mode is set to Host
    Clear,
}

impl LedDrvOff {
    /// The register code of the value.
    pub open spec fn code(self) -> u8 {
        match self {
            LedDrvOff::NoEffect => 0,
            LedDrvOff::Clear => 1,
        }
    }

    /// The value that the register code `v` stands for, if any.
    pub open spec fn decode(v: u8) -> Result<LedDrvOff, ()> {
        if v == 0 {
            Ok(LedDrvOff::NoEffect)
        } else if v == 1 {
            Ok(LedDrvOff::Clear)
        } else {
            Err(())
        }
    }
}

impl TryFrom<u8> for LedDrvOff {
    type Error = ();

    fn try_from(value: u8) -> (r: Result<Self, Self::Error>) {
        match value {
            0 => Ok(LedDrvOff::NoEffect),
            1 => Ok(LedDrvOff::Clear),
            _ => Err(()),
        }
    }
}

impl TryFromSpecImpl<u8> for LedDrvOff {
    open spec fn obeys_try_from_spec() -> bool {
        true
    }

    open spec fn try_from_spec(v: u8) -> Result<LedDrvOff, ()> {
        LedDrvOff::decode(v)
    }
}

impl From<LedDrvOff> for u8 {
    fn from(value: LedDrvOff) -> (r: u8) {
        match value {
            LedDrvOff::NoEffect => 0,
            LedDrvOff::Clear => 1,
        }
    }
}

impl FromSpecImpl<LedDrvOff> for u8 {
    open spec fn obeys_from_spec() -> bool {
        true
    }

    open spec fn from_spec(v: LedDrvOff) -> u8 {
        v.code()
    }
}

/// Sets the mode of LED driver `led` (0 to 2).
pub fn led_mode_ops(led: u8, mode: LedMode) -> (r: Vec<RegisterOp>)
    requires
        led < 3,
    ensures
        r@ == seq![write_op(Register::LedModeSelect(led), mode.code())],
{
    let mut ops: Vec<RegisterOp> = Vec::new();
    ops.push(write_reg(Register::LedModeSelect(led), u8::from(mode)));
    ops
}

/// Turns LED driver `led` (0 to 2) on or off: a pulse on its set or clear
/// register. It takes effect only in host mode.
pub fn led_drive_ops(led: u8, on: bool) -> (r: Vec<RegisterOp>)
    requires
        led < 3,
    ensures
        r@ == seq![
            write_op(
                if on { Register::LedSet(led) } else { Register::LedClear(led) },
                if on { LedDrvOn::SetLed.code() } else { LedDrvOff::Clear.code() },
            ),
        ],
{
    let mut ops: Vec<RegisterOp> = Vec::new();
    if on {
        ops.push(write_reg(Register::LedSet(led), u8::from(LedDrvOn::SetLed)));
    } else {
        ops.push(write_reg(Register::LedClear(led), u8::from(LedDrvOff::Clear)));
    }
    ops
}

} // verus!
