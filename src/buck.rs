use vstd::prelude::*;
use vstd::std_specs::convert::{FromSpecImpl, TryFromSpecImpl};

use crate::gpios::{Gpio, GpioMode, GpioPolarity};
use crate::registers::{modify_op, modify_reg, write_op, write_reg, Register, RegisterOp};

verus! {

/// Buck regulator output voltages
#[derive(Copy, Clone, Debug, PartialEq, Eq, Structural)]
pub enum BuckVoltage {
    V1_0,
    V1_1,
    V1_2,
    V1_3,
    V1_4,
    V1_5,
    V1_6,
    V1_7,
    V1_8,
    V1_9,
    V2_0,
    V2_1,
    V2_2,
    V2_3,
    V2_4,
    V2_5,
    V2_6,
    V2_7,
    V2_8,
    V2_9,
    V3_0,
    V3_1,
    V3_2,
    V3_3,
    V3_30,
}

impl BuckVoltage {
    /// The register code of the value.
    pub open spec fn code(self) -> u8 {
        match self {
            BuckVoltage::V1_0 => 0,
            BuckVoltage::V1_1 => 1,
            BuckVoltage::V1_2 => 2,
            BuckVoltage::V1_3 => 3,
            BuckVoltage::V1_4 => 4,
            BuckVoltage::V1_5 => 5,
            BuckVoltage::V1_6 => 6,
            BuckVoltage::V1_7 => 7,
            BuckVoltage::V1_8 => 8,
            BuckVoltage::V1_9 => 9,
            BuckVoltage::V2_0 => 10,
            BuckVoltage::V2_1 => 11,
            BuckVoltage::V2_2 => 12,
            BuckVoltage::V2_3 => 13,
            BuckVoltage::V2_4 => 14,
            BuckVoltage::V2_5 => 15,
            BuckVoltage::V2_6 => 16,
            BuckVoltage::V2_7 => 17,
            BuckVoltage::V2_8 => 18,
            BuckVoltage::V2_9 => 19,
            BuckVoltage::V3_0 => 20,
            BuckVoltage::V3_1 => 21,
            BuckVoltage::V3_2 => 22,
            BuckVoltage::V3_3 => 23,
            BuckVoltage::V3_30 => 24,
        }
    }

    /// The value that the register code `v` stands for, if any.
    pub open spec fn decode(v: u8) -> Result<BuckVoltage, ()> {
        if v == 0 {
            Ok(BuckVoltage::V1_0)
        } else if v == 1 {
            Ok(BuckVoltage::V1_1)
        } else if v == 2 {
            Ok(BuckVoltage::V1_2)
        } else if v == 3 {
            Ok(BuckVoltage::V1_3)
        } else if v == 4 {
            Ok(BuckVoltage::V1_4)
        } else if v == 5 {
            Ok(BuckVoltage::V1_5)
        } else if v == 6 {
            Ok(BuckVoltage::V1_6)
        } else if v == 7 {
            Ok(BuckVoltage::V1_7)
        } else if v == 8 {
            Ok(BuckVoltage::V1_8)
        } else if v == 9 {
            Ok(BuckVoltage::V1_9)
        } else if v == 10 {
            Ok(BuckVoltage::V2_0)
        } else if v == 11 {
            Ok(BuckVoltage::V2_1)
        } else if v == 12 {
            Ok(BuckVoltage::V2_2)
        } else if v == 13 {
            Ok(BuckVoltage::V2_3)
        } else if v == 14 {
            Ok(BuckVoltage::V2_4)
        } else if v == 15 {
            Ok(BuckVoltage::V2_5)
        } else if v == 16 {
            Ok(BuckVoltage::V2_6)
        } else if v == 17 {
            Ok(BuckVoltage::V2_7)
        } else if v == 18 {
            Ok(BuckVoltage::V2_8)
        } else if v == 19 {
            Ok(BuckVoltage::V2_9)
        } else if v == 20 {
            Ok(BuckVoltage::V3_0)
        } else if v == 21 {
            Ok(BuckVoltage::V3_1)
        } else if v == 22 {
            Ok(BuckVoltage::V3_2)
        } else if v == 23 {
            Ok(BuckVoltage::V3_3)
        } else if v == 24 {
            Ok(BuckVoltage::V3_30)
        } else {
            Err(())
        }
    }
}

impl TryFrom<u8> for BuckVoltage {
    type Error = ();

    fn try_from(value: u8) -> (r: Result<Self, Self::Error>) {
        match value {
            0 => Ok(BuckVoltage::V1_0),
            1 => Ok(BuckVoltage::V1_1),
            2 => Ok(BuckVoltage::V1_2),
            3 => Ok(BuckVoltage::V1_3),
            4 => Ok(BuckVoltage::V1_4),
            5 => Ok(BuckVoltage::V1_5),
            6 => Ok(BuckVoltage::V1_6),
            7 => Ok(BuckVoltage::V1_7),
            8 => Ok(BuckVoltage::V1_8),
            9 => Ok(BuckVoltage::V1_9),
            10 => Ok(BuckVoltage::V2_0),
            11 => Ok(BuckVoltage::V2_1),
            12 => Ok(BuckVoltage::V2_2),
            13 => Ok(BuckVoltage::V2_3),
            14 => Ok(BuckVoltage::V2_4),
            15 => Ok(BuckVoltage::V2_5),
            16 => Ok(BuckVoltage::V2_6),
            17 => Ok(BuckVoltage::V2_7),
            18 => Ok(BuckVoltage::V2_8),
            19 => Ok(BuckVoltage::V2_9),
            20 => Ok(BuckVoltage::V3_0),
            21 => Ok(BuckVoltage::V3_1),
            22 => Ok(BuckVoltage::V3_2),
            23 => Ok(BuckVoltage::V3_3),
            24 => Ok(BuckVoltage::V3_30),
            _ => Err(()),
        }
    }
}

impl TryFromSpecImpl<u8> for BuckVoltage {
    open spec fn obeys_try_from_spec() -> bool {
        true
    }

    open spec fn try_from_spec(v: u8) -> Result<BuckVoltage, ()> {
        BuckVoltage::decode(v)
    }
}

impl From<BuckVoltage> for u8 {
    fn from(value: BuckVoltage) -> (r: u8) {
        match value {
            BuckVoltage::V1_0 => 0,
            BuckVoltage::V1_1 => 1,
            BuckVoltage::V1_2 => 2,
            BuckVoltage::V1_3 => 3,
            BuckVoltage::V1_4 => 4,
            BuckVoltage::V1_5 => 5,
            BuckVoltage::V1_6 => 6,
            BuckVoltage::V1_7 => 7,
            BuckVoltage::V1_8 => 8,
            BuckVoltage::V1_9 => 9,
            BuckVoltage::V2_0 => 10,
            BuckVoltage::V2_1 => 11,
            BuckVoltage::V2_2 => 12,
            BuckVoltage::V2_3 => 13,
            BuckVoltage::V2_4 => 14,
            BuckVoltage::V2_5 => 15,
            BuckVoltage::V2_6 => 16,
            BuckVoltage::V2_7 => 17,
            BuckVoltage::V2_8 => 18,
            BuckVoltage::V2_9 => 19,
            BuckVoltage::V3_0 => 20,
            BuckVoltage::V3_1 => 21,
            BuckVoltage::V3_2 => 22,
            BuckVoltage::V3_3 => 23,
            BuckVoltage::V3_30 => 24,
        }
    }
}

impl FromSpecImpl<BuckVoltage> for u8 {
    open spec fn obeys_from_spec() -> bool {
        true
    }

    open spec fn from_spec(v: BuckVoltage) -> u8 {
        v.code()
    }
}

/// The register index of a GPIO: GPIOs are numbered from 1 in selection
/// fields (0 selects none) and from 0 in the per-GPIO registers.
pub fn gpio_to_register_index(gpio: Gpio) -> (r: usize)
    requires
        gpio != Gpio::NoGpio,
    ensures
        r == gpio.code() - 1,
        r < 5,
{
    (u8::from(gpio) - 1) as usize
}

/// Buck configuration: the GPIO that switches the bucks on and off, and its
/// polarity.
#[derive(Copy, Clone, Debug, PartialEq, Eq, Structural)]
pub struct Config {
    /// GPIO to enable/disable BUCK regulators
    pub gpio_buck_enable_control: Gpio,
    /// GPIO enable/disable polarity
    pub gpio_buck_enable_control_polarity: GpioPolarity,
}

impl Default for Config {
    /// No GPIO control, not inverted.
    fn default() -> (r: Self)
        ensures
            r.gpio_buck_enable_control == Gpio::NoGpio,
            r.gpio_buck_enable_control_polarity == GpioPolarity::NotInverted,
    {
        Config {
            gpio_buck_enable_control: Gpio::NoGpio,
            gpio_buck_enable_control_polarity: GpioPolarity::NotInverted,
        }
    }
}

/// How a buck chooses between its hysteretic and PWM modes.
#[derive(Copy, Clone, Debug, PartialEq, Eq, Structural)]
pub enum BuckOperatingMode {
    /// The mode follows the load
    Auto,
    /// PWM mode is used throughout
    Pwm,
}

impl BuckOperatingMode {
    pub open spec fn code(self) -> u8 {
        match self {
            BuckOperatingMode::Auto => 0,
            BuckOperatingMode::Pwm => 1,
        }
    }
}

/// Value of a buck's software-control-select bit that lets software alone
/// set the output voltage; 0 lets the VSET pin set it too.
pub const SOFTWARE_CONTROL: u8 = 1;

/// The bit of buck `buck` (0 or 1) in a register that holds one bit per
/// buck, starting at bit `first`.
pub open spec fn buck_bit(buck: u8, first: u8) -> u8 {
    if buck == 0 {
        if first == 0 { 1u8 } else { 4u8 }
    } else {
        if first == 0 { 2u8 } else { 8u8 }
    }
}

fn bit_of(buck: u8, first: u8) -> (r: u8)
    requires
        buck < 2,
        first == 0 || first == 2,
    ensures
        r == buck_bit(buck, first),
{
    if buck == 0 {
        if first == 0 { 1 } else { 4 }
    } else {
        if first == 0 { 2 } else { 8 }
    }
}

/// The four bits of buck `buck` (0 or 1) in a GPIO selection register: the
/// GPIO number in the low three, its inversion in the fourth.
pub open spec fn selection_mask(buck: u8) -> u8 {
    if buck == 0 { 0x0Fu8 } else { 0xF0u8 }
}

/// The three GPIO-number bits of buck `buck` in a GPIO selection register.
pub open spec fn gpio_field_mask(buck: u8) -> u8 {
    if buck == 0 { 0x07u8 } else { 0x70u8 }
}

/// The selection field of `gpio` with `polarity`, placed for buck `buck`.
pub open spec fn selection_value(buck: u8, gpio: Gpio, polarity: GpioPolarity) -> u8 {
    let field = gpio.code() + 8 * polarity.code();
    (if buck == 0 { field } else { field * 16 }) as u8
}

fn selection(buck: u8, gpio: Gpio, polarity: GpioPolarity) -> (r: (u8, u8))
    requires
        buck < 2,
    ensures
        r.0 == selection_mask(buck),
        r.1 == selection_value(buck, gpio, polarity),
{
    let field: u8 = u8::from(gpio) + 8 * u8::from(polarity);
    if buck == 0 {
        (0x0F, field)
    } else {
        (0xF0, field * 16)
    }
}

/// Turns buck `buck` (0 or 1) on or off: a trigger of its enable-set or
/// enable-clear task.
pub fn buck_power_ops(buck: u8, enable: bool) -> (r: Vec<RegisterOp>)
    requires
        buck < 2,
    ensures
        r@ == seq![
            write_op(
                if enable { Register::BuckEnableSet(buck) } else { Register::BuckEnableClear(buck) },
                1,
            ),
        ],
{
    let mut ops: Vec<RegisterOp> = Vec::new();
    let task = if enable { Register::BuckEnableSet(buck) } else { Register::BuckEnableClear(buck) };
    ops.push(write_reg(task, 1));
    ops
}

/// Forces buck `buck` (0 or 1) into PWM mode, or returns it to automatic
/// mode: a trigger of its PWM-set or PWM-clear task.
pub fn buck_forced_pwm_ops(buck: u8, enable: bool) -> (r: Vec<RegisterOp>)
    requires
        buck < 2,
    ensures
        r@ == seq![
            write_op(
                if enable { Register::BuckPwmSet(buck) } else { Register::BuckPwmClear(buck) },
                1,
            ),
        ],
{
    let mut ops: Vec<RegisterOp> = Vec::new();
    let task = if enable { Register::BuckPwmSet(buck) } else { Register::BuckPwmClear(buck) };
    ops.push(write_reg(task, 1));
    ops
}

/// Sets the normal-mode output voltage of buck `buck` (0 or 1), then hands
/// its voltage to software control.
pub fn buck_normal_voltage_ops(buck: u8, voltage: BuckVoltage) -> (r: Vec<RegisterOp>)
    requires
        buck < 2,
    ensures
        r@ == seq![
            write_op(Register::BuckNormalVout(buck), voltage.code()),
            modify_op(Register::BuckSoftwareControlSelect, buck_bit(buck, 0), buck_bit(buck, 0)),
        ],
{
    let mut ops: Vec<RegisterOp> = Vec::new();
    ops.push(write_reg(Register::BuckNormalVout(buck), u8::from(voltage)));
    let bit = bit_of(buck, 0);
    ops.push(modify_reg(Register::BuckSoftwareControlSelect, bit, bit));
    ops
}

/// Lets the VSET pin as well as software set the voltage of buck `buck`.
pub fn buck_vset_voltage_ops(buck: u8) -> (r: Vec<RegisterOp>)
    requires
        buck < 2,
    ensures
        r@ == seq![modify_op(Register::BuckSoftwareControlSelect, buck_bit(buck, 0), 0)],
{
    let mut ops: Vec<RegisterOp> = Vec::new();
    ops.push(modify_reg(Register::BuckSoftwareControlSelect, bit_of(buck, 0), 0));
    ops
}

/// Puts buck `buck` (0 or 1) under retention control by `gpio`: the GPIO
/// becomes an input, it is selected with its polarity, the retention
/// voltage is set, and the voltage is handed to software control.
pub fn buck_retention_ops(
    buck: u8,
    voltage: BuckVoltage,
    gpio: Gpio,
    polarity: GpioPolarity,
) -> (r: Vec<RegisterOp>)
    requires
        buck < 2,
        gpio != Gpio::NoGpio,
    ensures
        r@ == seq![
            write_op(Register::GpioMode((gpio.code() - 1) as u8), GpioMode::GpiInput.code()),
            modify_op(
                Register::BuckRetentionControl,
                selection_mask(buck),
                selection_value(buck, gpio, polarity),
            ),
            write_op(Register::BuckRetentionVout(buck), voltage.code()),
            modify_op(Register::BuckSoftwareControlSelect, buck_bit(buck, 0), buck_bit(buck, 0)),
        ],
{
    let mut ops: Vec<RegisterOp> = Vec::new();
    let index = gpio_to_register_index(gpio) as u8;
    ops.push(write_reg(Register::GpioMode(index), u8::from(GpioMode::GpiInput)));
    let (mask, value) = selection(buck, gpio, polarity);
    ops.push(modify_reg(Register::BuckRetentionControl, mask, value));
    ops.push(write_reg(Register::BuckRetentionVout(buck), u8::from(voltage)));
    let bit = bit_of(buck, 0);
    ops.push(modify_reg(Register::BuckSoftwareControlSelect, bit, bit));
    ops
}

/// Ends retention control of buck `buck`: its GPIO selection becomes none.
pub fn disable_buck_retention_ops(buck: u8) -> (r: Vec<RegisterOp>)
    requires
        buck < 2,
    ensures
        r@ == seq![modify_op(Register::BuckRetentionControl, gpio_field_mask(buck), 0)],
{
    let mut ops: Vec<RegisterOp> = Vec::new();
    let mask: u8 = if buck == 0 { 0x07 } else { 0x70 };
    ops.push(modify_reg(Register::BuckRetentionControl, mask, 0));
    ops
}

/// Selects `gpio` with `polarity` in `control` for buck `buck`, after making
/// the GPIO an input. With no GPIO, nothing is written.
fn gpio_control_ops(control: Register, buck: u8, gpio: Gpio, polarity: GpioPolarity) -> (r: Vec<RegisterOp>)
    requires
        buck < 2,
        control.valid(),
    ensures
        gpio == Gpio::NoGpio ==> r@ == Seq::<RegisterOp>::empty(),
        gpio != Gpio::NoGpio ==> r@ == seq![
            write_op(Register::GpioMode((gpio.code() - 1) as u8), GpioMode::GpiInput.code()),
            modify_op(control, selection_mask(buck), selection_value(buck, gpio, polarity)),
        ],
{
    let mut ops: Vec<RegisterOp> = Vec::new();
    if gpio != Gpio::NoGpio {
        let index = gpio_to_register_index(gpio) as u8;
        ops.push(write_reg(Register::GpioMode(index), u8::from(GpioMode::GpiInput)));
        let (mask, value) = selection(buck, gpio, polarity);
        ops.push(modify_reg(control, mask, value));
    }
    ops
}

/// Lets `gpio` switch buck `buck` (0 or 1) on and off. With no GPIO,
/// nothing is written.
pub fn buck_gpio_enable_ops(buck: u8, gpio: Gpio, polarity: GpioPolarity) -> (r: Vec<RegisterOp>)
    requires
        buck < 2,
    ensures
        gpio == Gpio::NoGpio ==> r@ == Seq::<RegisterOp>::empty(),
        gpio != Gpio::NoGpio ==> r@ == seq![
            write_op(Register::GpioMode((gpio.code() - 1) as u8), GpioMode::GpiInput.code()),
            modify_op(
                Register::BuckEnableControl,
                selection_mask(buck),
                selection_value(buck, gpio, polarity),
            ),
        ],
{
    gpio_control_ops(Register::BuckEnableControl, buck, gpio, polarity)
}

/// Lets `gpio` force buck `buck` (0 or 1) into PWM mode. With no GPIO,
/// nothing is written.
pub fn buck_gpio_forced_pwm_ops(buck: u8, gpio: Gpio, polarity: GpioPolarity) -> (r: Vec<RegisterOp>)
    requires
        buck < 2,
    ensures
        gpio == Gpio::NoGpio ==> r@ == Seq::<RegisterOp>::empty(),
        gpio != Gpio::NoGpio ==> r@ == seq![
            write_op(Register::GpioMode((gpio.code() - 1) as u8), GpioMode::GpiInput.code()),
            modify_op(
                Register::BuckPwmControl,
                selection_mask(buck),
                selection_value(buck, gpio, polarity),
            ),
        ],
{
    gpio_control_ops(Register::BuckPwmControl, buck, gpio, polarity)
}

/// Sets how buck `buck` (0 or 1) chooses its mode.
pub fn buck_operating_mode_ops(buck: u8, mode: BuckOperatingMode) -> (r: Vec<RegisterOp>)
    requires
        buck < 2,
    ensures
        r@ == seq![
            modify_op(
                Register::BuckControl0,
                buck_bit(buck, 0),
                if mode == BuckOperatingMode::Pwm { buck_bit(buck, 0) } else { 0 },
            ),
        ],
{
    let mut ops: Vec<RegisterOp> = Vec::new();
    let bit = bit_of(buck, 0);
    let value = match mode {
        BuckOperatingMode::Pwm => bit,
        BuckOperatingMode::Auto => 0,
    };
    ops.push(modify_reg(Register::BuckControl0, bit, value));
    ops
}

/// Switches the output pull-down of buck `buck` (0 or 1) on or off.
pub fn buck_pull_down_ops(buck: u8, enable: bool) -> (r: Vec<RegisterOp>)
    requires
        buck < 2,
    ensures
        r@ == seq![
            modify_op(
                Register::BuckControl0,
                buck_bit(buck, 2),
                if enable { buck_bit(buck, 2) } else { 0 },
            ),
        ],
{
    let mut ops: Vec<RegisterOp> = Vec::new();
    let bit = bit_of(buck, 2);
    ops.push(modify_reg(Register::BuckControl0, bit, if enable { bit } else { 0 }));
    ops
}

} // verus!
