use vstd::prelude::*;
use vstd::std_specs::convert::{FromSpecImpl, TryFromSpecImpl};

verus! {

/// Input current limit for VBUS
#[derive(Copy, Clone, Debug, PartialEq, Eq, Structural)]
pub enum VbusInCurrentLimit {
    /// 500 mA
    MA500,
    /// 100 mA
    MA100,
    /// 200 mA
    MA200,
    /// 300 mA
    MA300,
    /// 400 mA
    MA400,
    /// 500 mA (alternate)
    MA500Alt,
    /// 600 mA
    MA600,
    /// 700 mA
    MA700,
    /// 800 mA
    MA800,
    /// 900 mA
    MA900,
    /// 1000 mA
    MA1000,
    /// 1100 mA
    MA1100,
    /// 1200 mA
    MA1200,
    /// 1300 mA
    MA1300,
    /// 1400 mA
    MA1400,
    /// 1500 mA
    MA1500,
}

impl VbusInCurrentLimit {
    /// The register code of the value.
    pub open spec fn code(self) -> u8 {
        match self {
            VbusInCurrentLimit::MA500 => 0,
            VbusInCurrentLimit::MA100 => 1,
            VbusInCurrentLimit::MA200 => 2,
            VbusInCurrentLimit::MA300 => 3,
            VbusInCurrentLimit::MA400 => 4,
            VbusInCurrentLimit::MA500Alt => 5,
            VbusInCurrentLimit::MA600 => 6,
            VbusInCurrentLimit::MA700 => 7,
            VbusInCurrentLimit::MA800 => 8,
            VbusInCurrentLimit::MA900 => 9,
            VbusInCurrentLimit::MA1000 => 10,
            VbusInCurrentLimit::MA1100 => 11,
            VbusInCurrentLimit::MA1200 => 12,
            VbusInCurrentLimit::MA1300 => 13,
            VbusInCurrentLimit::MA1400 => 14,
            VbusInCurrentLimit::MA1500 => 15,
        }
    }

    /// The value that the register code `v` stands for, if any.
    pub open spec fn decode(v: u8) -> Result<VbusInCurrentLimit, ()> {
        if v == 0 {
            Ok(VbusInCurrentLimit::MA500)
        } else if v == 1 {
            Ok(VbusInCurrentLimit::MA100)
        } else if v == 2 {
            Ok(VbusInCurrentLimit::MA200)
        } else if v == 3 {
            Ok(VbusInCurrentLimit::MA300)
        } else if v == 4 {
            Ok(VbusInCurrentLimit::MA400)
        } else if v == 5 {
            Ok(VbusInCurrentLimit::MA500Alt)
        } else if v == 6 {
            Ok(VbusInCurrentLimit::MA600)
        } else if v == 7 {
            Ok(VbusInCurrentLimit::MA700)
        } else if v == 8 {
            Ok(VbusInCurrentLimit::MA800)
        } else if v == 9 {
            Ok(VbusInCurrentLimit::MA900)
        } else if v == 10 {
            Ok(VbusInCurrentLimit::MA1000)
        } else if v == 11 {
            Ok(VbusInCurrentLimit::MA1100)
        } else if v == 12 {
            Ok(VbusInCurrentLimit::MA1200)
        } else if v == 13 {
            Ok(VbusInCurrentLimit::MA1300)
        } else if v == 14 {
            Ok(VbusInCurrentLimit::MA1400)
        } else if v == 15 {
            Ok(VbusInCurrentLimit::MA1500)
        } else {
            Err(())
        }
    }
}

impl TryFrom<u8> for VbusInCurrentLimit {
    type Error = ();

    fn try_from(value: u8) -> (r: Result<Self, Self::Error>) {
        match value {
            0 => Ok(VbusInCurrentLimit::MA500),
            1 => Ok(VbusInCurrentLimit::MA100),
            2 => Ok(VbusInCurrentLimit::MA200),
            3 => Ok(VbusInCurrentLimit::MA300),
            4 => Ok(VbusInCurrentLimit::MA400),
            5 => Ok(VbusInCurrentLimit::MA500Alt),
            6 => Ok(VbusInCurrentLimit::MA600),
            7 => Ok(VbusInCurrentLimit::MA700),
            8 => Ok(VbusInCurrentLimit::MA800),
            9 => Ok(VbusInCurrentLimit::MA900),
            10 => Ok(VbusInCurrentLimit::MA1000),
            11 => Ok(VbusInCurrentLimit::MA1100),
            12 => Ok(VbusInCurrentLimit::MA1200),
            13 => Ok(VbusInCurrentLimit::MA1300),
            14 => Ok(VbusInCurrentLimit::MA1400),
            15 => Ok(VbusInCurrentLimit::MA1500),
            _ => Err(()),
        }
    }
}

impl TryFromSpecImpl<u8> for VbusInCurrentLimit {
    open spec fn obeys_try_from_spec() -> bool {
        true
    }

    open spec fn try_from_spec(v: u8) -> Result<VbusInCurrentLimit, ()> {
        VbusInCurrentLimit::decode(v)
    }
}

impl From<VbusInCurrentLimit> for u8 {
    fn from(value: VbusInCurrentLimit) -> (r: u8) {
        match value {
            VbusInCurrentLimit::MA500 => 0,
            VbusInCurrentLimit::MA100 => 1,
            VbusInCurrentLimit::MA200 => 2,
            VbusInCurrentLimit::MA300 => 3,
            VbusInCurrentLimit::MA400 => 4,
            VbusInCurrentLimit::MA500Alt => 5,
            VbusInCurrentLimit::MA600 => 6,
            VbusInCurrentLimit::MA700 => 7,
            VbusInCurrentLimit::MA800 => 8,
            VbusInCurrentLimit::MA900 => 9,
            VbusInCurrentLimit::MA1000 => 10,
            VbusInCurrentLimit::MA1100 => 11,
            VbusInCurrentLimit::MA1200 => 12,
            VbusInCurrentLimit::MA1300 => 13,
            VbusInCurrentLimit::MA1400 => 14,
            VbusInCurrentLimit::MA1500 => 15,
        }
    }
}

impl FromSpecImpl<VbusInCurrentLimit> for u8 {
    open spec fn obeys_from_spec() -> bool {
        true
    }

    open spec fn from_spec(v: VbusInCurrentLimit) -> u8 {
        v.code()
    }
}

/// CC line comparator result of VBUS
#[derive(Copy, Clone, Debug, PartialEq, Eq, Structural)]
pub enum VbusInCcCmp {
    /// No connection
    NoConnection,
    /// Default USB 100/500mA
    DefaultUsb,
    /// 1.5A High Power
    MA1500HighPower,
    /// 3A High Power
    MA3000HighPower,
}

impl VbusInCcCmp {
    /// The register code of the value.
    pub open spec fn code(self) -> u8 {
        match self {
            VbusInCcCmp::NoConnection => 0,
            VbusInCcCmp::DefaultUsb => 1,
            VbusInCcCmp::MA1500HighPower => 2,
            VbusInCcCmp::MA3000HighPower => 3,
        }
    }

    /// The value that the register code `v` stands for, if any.
    pub open spec fn decode(v: u8) -> Result<VbusInCcCmp, ()> {
        if v == 0 {
            Ok(VbusInCcCmp::NoConnection)
        } else if v == 1 {
            Ok(VbusInCcCmp::DefaultUsb)
        } else if v == 2 {
            Ok(VbusInCcCmp::MA1500HighPower)
        } else if v == 3 {
            Ok(VbusInCcCmp::MA3000HighPower)
        } else {
            Err(())
        }
    }
}

impl TryFrom<u8> for VbusInCcCmp {
    type Error = ();

    fn try_from(value: u8) -> (r: Result<Self, Self::Error>) {
        match value {
            0 => Ok(VbusInCcCmp::NoConnection),
            1 => Ok(VbusInCcCmp::DefaultUsb),
            2 => Ok(VbusInCcCmp::MA1500HighPower),
            3 => Ok(VbusInCcCmp::MA3000HighPower),
            _ => Err(()),
        }
    }
}

impl TryFromSpecImpl<u8> for VbusInCcCmp {
    open spec fn obeys_try_from_spec() -> bool {
        true
    }

    open spec fn try_from_spec(v: u8) -> Result<VbusInCcCmp, ()> {
        VbusInCcCmp::decode(v)
    }
}

impl From<VbusInCcCmp> for u8 {
    fn from(value: VbusInCcCmp) -> (r: u8) {
        match value {
            VbusInCcCmp::NoConnection => 0,
            VbusInCcCmp::DefaultUsb => 1,
            VbusInCcCmp::MA1500HighPower => 2,
            VbusInCcCmp::MA3000HighPower => 3,
        }
    }
}

impl FromSpecImpl<VbusInCcCmp> for u8 {
    open spec fn obeys_from_spec() -> bool {
        true
    }

    open spec fn from_spec(v: VbusInCcCmp) -> u8 {
        v.code()
    }
}

/// VBUS CC comparator status flags
#[derive(Copy, Clone, Debug, PartialEq, Eq, Structural)]
pub struct VbusCcStatus {
    pub vbusin_cc1_status: VbusInCcCmp,
    pub vbusin_cc2_status: VbusInCcCmp,
}

/// VBUS status flags
#[derive(Copy, Clone, Debug, PartialEq, Eq, Structural)]
pub struct VbusInStatus {
    /// VBUS is detected
    pub is_vbus_in_present: bool,
    /// The VBUS input current limit is active
    pub is_vbus_in_current_limit_active: bool,
    /// VBUS over-voltage protection is active
    pub is_vbus_in_overvoltage_protection_active: bool,
    /// VBUS under-voltage is detected
    pub is_vbus_undervoltage_detected: bool,
    /// The VBUS input is suspended
    pub is_vbus_in_suspended: bool,
    /// The VBUS output is active
    pub is_vbus_out_active: bool,
}

} // verus!
