use vstd::prelude::*;
use vstd::std_specs::convert::{FromSpecImpl, TryFromSpecImpl};

use crate::adc::MAX_SAMPLE;
use crate::registers::{modify_op, modify_reg, Register, RegisterOp};
use crate::NPM1300Error;

verus! {

/// VSYS threshold of the power-failure comparator
#[derive(Copy, Clone, Debug, PartialEq, Eq, Structural)]
pub enum VsysThreshold {
    /// 2.6 V
    V26,
    /// 2.7 V
    V27,
    /// 2.8 V
    V28,
    /// 2.9 V
    V29,
    /// 3.0 V
    V30,
    /// 3.1 V
    V31,
    /// 3.2 V
    V32,
    /// 3.3 V
    V33,
    /// 3.4 V
    V34,
    /// 3.5 V
    V35,
    /// Reserved
    Unused10,
    /// Reserved
    Unused11,
    /// Reserved
    Unused12,
    /// Reserved
    Unused13,
    /// Reserved
    Unused14,
    /// Reserved
    Unused15,
}

impl VsysThreshold {
    /// The register code of the value.
    pub open spec fn code(self) -> u8 {
        match self {
            VsysThreshold::V26 => 0,
            VsysThreshold::V27 => 1,
            VsysThreshold::V28 => 2,
            VsysThreshold::V29 => 3,
            VsysThreshold::V30 => 4,
            VsysThreshold::V31 => 5,
            VsysThreshold::V32 => 6,
            VsysThreshold::V33 => 7,
            VsysThreshold::V34 => 8,
            VsysThreshold::V35 => 9,
            VsysThreshold::Unused10 => 10,
            VsysThreshold::Unused11 => 11,
            VsysThreshold::Unused12 => 12,
            VsysThreshold::Unused13 => 13,
            VsysThreshold::Unused14 => 14,
            VsysThreshold::Unused15 => 15,
        }
    }

    /// The value that the register code `v` stands for, if any.
    pub open spec fn decode(v: u8) -> Result<VsysThreshold, ()> {
        if v == 0 {
            Ok(VsysThreshold::V26)
        } else if v == 1 {
            Ok(VsysThreshold::V27)
        } else if v == 2 {
            Ok(VsysThreshold::V28)
        } else if v == 3 {
            Ok(VsysThreshold::V29)
        } else if v == 4 {
            Ok(VsysThreshold::V30)
        } else if v == 5 {
            Ok(VsysThreshold::V31)
        } else if v == 6 {
            Ok(VsysThreshold::V32)
        } else if v == 7 {
            Ok(VsysThreshold::V33)
        } else if v == 8 {
            Ok(VsysThreshold::V34)
        } else if v == 9 {
            Ok(VsysThreshold::V35)
        } else if v == 10 {
            Ok(VsysThreshold::Unused10)
        } else if v == 11 {
            Ok(VsysThreshold::Unused11)
        } else if v == 12 {
            Ok(VsysThreshold::Unused12)
        } else if v == 13 {
            Ok(VsysThreshold::Unused13)
        } else if v == 14 {
            Ok(VsysThreshold::Unused14)
        } else if v == 15 {
            Ok(VsysThreshold::Unused15)
        } else {
            Err(())
        }
    }
}

impl TryFrom<u8> for VsysThreshold {
    type Error = ();

    fn try_from(value: u8) -> (r: Result<Self, Self::Error>) {
        match value {
            0 => Ok(VsysThreshold::V26),
            1 => Ok(VsysThreshold::V27),
            2 => Ok(VsysThreshold::V28),
            3 => Ok(VsysThreshold::V29),
            4 => Ok(VsysThreshold::V30),
            5 => Ok(VsysThreshold::V31),
            6 => Ok(VsysThreshold::V32),
            7 => Ok(VsysThreshold::V33),
            8 => Ok(VsysThreshold::V34),
            9 => Ok(VsysThreshold::V35),
            10 => Ok(VsysThreshold::Unused10),
            11 => Ok(VsysThreshold::Unused11),
            12 => Ok(VsysThreshold::Unused12),
            13 => Ok(VsysThreshold::Unused13),
            14 => Ok(VsysThreshold::Unused14),
            15 => Ok(VsysThreshold::Unused15),
            _ => Err(()),
        }
    }
}

impl TryFromSpecImpl<u8> for VsysThreshold {
    open spec fn obeys_try_from_spec() -> bool {
        true
    }

    open spec fn try_from_spec(v: u8) -> Result<VsysThreshold, ()> {
        VsysThreshold::decode(v)
    }
}

impl From<VsysThreshold> for u8 {
    fn from(value: VsysThreshold) -> (r: u8) {
        match value {
            VsysThreshold::V26 => 0,
            VsysThreshold::V27 => 1,
            VsysThreshold::V28 => 2,
            VsysThreshold::V29 => 3,
            VsysThreshold::V30 => 4,
            VsysThreshold::V31 => 5,
            VsysThreshold::V32 => 6,
            VsysThreshold::V33 => 7,
            VsysThreshold::V34 => 8,
            VsysThreshold::V35 => 9,
            VsysThreshold::Unused10 => 10,
            VsysThreshold::Unused11 => 11,
            VsysThreshold::Unused12 => 12,
            VsysThreshold::Unused13 => 13,
            VsysThreshold::Unused14 => 14,
            VsysThreshold::Unused15 => 15,
        }
    }
}

impl FromSpecImpl<VsysThreshold> for u8 {
    open spec fn obeys_from_spec() -> bool {
        true
    }

    open spec fn from_spec(v: VsysThreshold) -> u8 {
        v.code()
    }
}

/// Polarity of the power-failure warning output.
#[derive(Copy, Clone, Debug, PartialEq, Eq, Structural)]
pub enum PofWarningPolarity {
    ActiveLow,
    ActiveHigh,
}

impl PofWarningPolarity {
    pub open spec fn code(self) -> u8 {
        match self {
            PofWarningPolarity::ActiveLow => 0,
            PofWarningPolarity::ActiveHigh => 1,
        }
    }
}

/// Power-failure configuration bits: enable in bit 0, warning polarity in
/// bit 1, VSYS threshold in bits 5..2.
pub const POF_ENABLE_MASK: u8 = 0x01;
pub const POF_POLARITY_MASK: u8 = 0x02;
pub const POF_THRESHOLD_MASK: u8 = 0x3C;

impl VsysThreshold {
    /// The threshold in millivolts; the reserved codes act as 2.8 V.
    pub open spec fn millivolts(self) -> int {
        match self {
            VsysThreshold::V26 => 2600,
            VsysThreshold::V27 => 2700,
            VsysThreshold::V28 => 2800,
            VsysThreshold::V29 => 2900,
            VsysThreshold::V30 => 3000,
            VsysThreshold::V31 => 3100,
            VsysThreshold::V32 => 3200,
            VsysThreshold::V33 => 3300,
            VsysThreshold::V34 => 3400,
            VsysThreshold::V35 => 3500,
            _ => 2800,
        }
    }

    pub fn to_millivolts(self) -> (r: u32)
        ensures
            r == self.millivolts(),
    {
        match self {
            VsysThreshold::V26 => 2600,
            VsysThreshold::V27 => 2700,
            VsysThreshold::V28 => 2800,
            VsysThreshold::V29 => 2900,
            VsysThreshold::V30 => 3000,
            VsysThreshold::V31 => 3100,
            VsysThreshold::V32 => 3200,
            VsysThreshold::V33 => 3300,
            VsysThreshold::V34 => 3400,
            VsysThreshold::V35 => 3500,
            _ => 2800,
        }
    }
}

/// Switches power-failure detection on or off.
pub fn pof_enable_ops(enable: bool) -> (r: Vec<RegisterOp>)
    ensures
        r@ == seq![
            modify_op(Register::PofConfig, POF_ENABLE_MASK, if enable { POF_ENABLE_MASK } else { 0 }),
        ],
{
    let mut ops: Vec<RegisterOp> = Vec::new();
    ops.push(modify_reg(Register::PofConfig, POF_ENABLE_MASK, if enable { POF_ENABLE_MASK } else { 0 }));
    ops
}

/// Sets the polarity of the power-failure warning output.
pub fn pof_polarity_ops(polarity: PofWarningPolarity) -> (r: Vec<RegisterOp>)
    ensures
        r@ == seq![modify_op(Register::PofConfig, POF_POLARITY_MASK, (polarity.code() * 2) as u8)],
{
    let mut ops: Vec<RegisterOp> = Vec::new();
    let value: u8 = match polarity {
        PofWarningPolarity::ActiveLow => 0,
        PofWarningPolarity::ActiveHigh => 2,
    };
    ops.push(modify_reg(Register::PofConfig, POF_POLARITY_MASK, value));
    ops
}

/// Whether a power-failure configuration value has detection enabled.
pub fn pof_enabled(config: u8) -> (r: bool)
    ensures
        r == (config % 2 == 1),
{
    config % 2 == 1
}

/// The warning polarity in a power-failure configuration value.
pub fn pof_polarity(config: u8) -> (r: PofWarningPolarity)
    ensures
        r == (if (config / 2) % 2 == 1 { PofWarningPolarity::ActiveHigh } else { PofWarningPolarity::ActiveLow }),
{
    if (config / 2) % 2 == 1 {
        PofWarningPolarity::ActiveHigh
    } else {
        PofWarningPolarity::ActiveLow
    }
}

/// The VSYS threshold in a power-failure configuration value.
pub fn pof_threshold(config: u8) -> (r: VsysThreshold)
    ensures
        VsysThreshold::decode(((config / 4) % 16) as u8) == Ok::<VsysThreshold, ()>(r),
        r.code() == (config / 4) % 16,
{
    let field: u8 = (config / 4) % 16;
    match VsysThreshold::try_from(field) {
        Ok(t) => t,
        Err(_) => VsysThreshold::V28,
    }
}

/// Whether VSYS, as a 10-bit sample of `sample / 1023 * 5 V`, lies below
/// the threshold. The comparison is exact: `sample * 5000 < mV * 1023`.
pub open spec fn vsys_below(sample: int, threshold: VsysThreshold) -> bool {
    sample * 5000 < threshold.millivolts() * 1023
}

/// Checks a new VSYS threshold against a VSYS sample taken just before and
/// returns the write that sets it. A threshold above VSYS would trip the
/// comparator at once, so it is refused and nothing is written.
pub fn vsys_threshold_ops<E>(vsys_sample: u16, threshold: VsysThreshold) -> (r: Result<Vec<RegisterOp>, NPM1300Error<E>>)
    requires
        vsys_sample <= MAX_SAMPLE,
    ensures
        r is Err <==> vsys_below(vsys_sample as int, threshold),
        r is Err ==> r == Err::<Vec<RegisterOp>, NPM1300Error<E>>(NPM1300Error::InvalidPofVsysThreshold),
        r is Ok ==> r->Ok_0@ == seq![
            modify_op(Register::PofConfig, POF_THRESHOLD_MASK, (threshold.code() * 4) as u8),
        ],
{
    let millivolts = threshold.to_millivolts();
    if (vsys_sample as u32) * 5000 < millivolts * 1023 {
        return Err(NPM1300Error::InvalidPofVsysThreshold);
    }
    let mut ops: Vec<RegisterOp> = Vec::new();
    ops.push(modify_reg(Register::PofConfig, POF_THRESHOLD_MASK, u8::from(threshold) * 4));
    Ok(ops)
}

} // verus!
