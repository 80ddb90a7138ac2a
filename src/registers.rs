use vstd::prelude::*;

verus! {

/// The registers of the PMIC that the driver reads and writes, by name.
///
/// An address is 16 bits: the peripheral's base in the high byte and the
/// register's offset in the low byte. Registers that exist once per
/// instance (per buck, per GPIO, per LED) carry the instance index.
#[derive(Copy, Clone, Debug, PartialEq, Eq, Structural)]
pub enum Register {
    ChargerIsetMsb,
    ChargerIsetLsb,
    ChargerIsetDischargeMsb,
    ChargerIsetDischargeLsb,
    BuckEnableSet(u8),
    BuckEnableClear(u8),
    BuckPwmSet(u8),
    BuckPwmClear(u8),
    BuckNormalVout(u8),
    BuckRetentionVout(u8),
    BuckEnableControl,
    BuckRetentionControl,
    BuckPwmControl,
    BuckSoftwareControlSelect,
    BuckVoutStatus(u8),
    BuckControl0,
    BuckStatus,
    AdcTaskVbatMeasure,
    AdcTaskNtcMeasure,
    AdcTaskTempMeasure,
    AdcTaskVsysMeasure,
    AdcTaskIbatMeasure,
    AdcConfig,
    AdcIbatMeasureStatus,
    AdcVbatResultMsb,
    AdcNtcResultMsb,
    AdcTempResultMsb,
    AdcVsysResultMsb,
    AdcGp0ResultLsbs,
    AdcVbatBurstResultMsb(u8),
    AdcGp1ResultLsbs,
    GpioMode(u8),
    GpioDrive(u8),
    GpioPullUp(u8),
    GpioPullDown(u8),
    GpioOpenDrain(u8),
    GpioDebounce(u8),
    GpioStatus,
    PofConfig,
    LedModeSelect(u8),
    LedSet(u8),
    LedClear(u8),
    ShipTaskEnterHibernate,
    ShipTaskConfigStrobe,
    ShipTaskEnterShipMode,
    ShipTaskResetConfig,
    ShipHoldConfig,
    ShipHoldStatus,
    LongPressResetConfig,
}

pub const CHARGER_BASE: u16 = 0x0300;
pub const BUCK_BASE: u16 = 0x0400;
pub const ADC_BASE: u16 = 0x0500;
pub const GPIO_BASE: u16 = 0x0600;
pub const POF_BASE: u16 = 0x0900;
pub const LED_BASE: u16 = 0x0A00;
pub const SHIP_BASE: u16 = 0x0B00;

impl Register {
    /// The instance index is in range: two bucks, four burst slots, five
    /// GPIOs, three LEDs.
    pub open spec fn valid(self) -> bool {
        match self {
            Register::BuckEnableSet(i) => i < 2,
            Register::BuckEnableClear(i) => i < 2,
            Register::BuckPwmSet(i) => i < 2,
            Register::BuckPwmClear(i) => i < 2,
            Register::BuckNormalVout(i) => i < 2,
            Register::BuckRetentionVout(i) => i < 2,
            Register::BuckVoutStatus(i) => i < 2,
            Register::AdcVbatBurstResultMsb(i) => i < 4,
            Register::GpioMode(i) => i < 5,
            Register::GpioDrive(i) => i < 5,
            Register::GpioPullUp(i) => i < 5,
            Register::GpioPullDown(i) => i < 5,
            Register::GpioOpenDrain(i) => i < 5,
            Register::GpioDebounce(i) => i < 5,
            Register::LedModeSelect(i) => i < 3,
            Register::LedSet(i) => i < 3,
            Register::LedClear(i) => i < 3,
            _ => true,
        }
    }

    /// The bus address of the register.
    pub open spec fn spec_address(self) -> int {
        match self {
            Register::ChargerIsetMsb => CHARGER_BASE + 0x08,
            Register::ChargerIsetLsb => CHARGER_BASE + 0x09,
            Register::ChargerIsetDischargeMsb => CHARGER_BASE + 0x0A,
            Register::ChargerIsetDischargeLsb => CHARGER_BASE + 0x0B,
            Register::BuckEnableSet(i) => BUCK_BASE + 2 * i,
            Register::BuckEnableClear(i) => BUCK_BASE + 0x01 + 2 * i,
            Register::BuckPwmSet(i) => BUCK_BASE + 0x04 + 2 * i,
            Register::BuckPwmClear(i) => BUCK_BASE + 0x05 + 2 * i,
            Register::BuckNormalVout(i) => BUCK_BASE + 0x08 + 2 * i,
            Register::BuckRetentionVout(i) => BUCK_BASE + 0x09 + 2 * i,
            Register::BuckEnableControl => BUCK_BASE + 0x0C,
            Register::BuckRetentionControl => BUCK_BASE + 0x0D,
            Register::BuckPwmControl => BUCK_BASE + 0x0E,
            Register::BuckSoftwareControlSelect => BUCK_BASE + 0x0F,
            Register::BuckVoutStatus(i) => BUCK_BASE + 0x10 + i,
            Register::BuckControl0 => BUCK_BASE + 0x15,
            Register::BuckStatus => BUCK_BASE + 0x34,
            Register::AdcTaskVbatMeasure => ADC_BASE as int,
            Register::AdcTaskNtcMeasure => ADC_BASE + 0x01,
            Register::AdcTaskTempMeasure => ADC_BASE + 0x02,
            Register::AdcTaskVsysMeasure => ADC_BASE + 0x03,
            Register::AdcTaskIbatMeasure => ADC_BASE + 0x06,
            Register::AdcConfig => ADC_BASE + 0x09,
            Register::AdcIbatMeasureStatus => ADC_BASE + 0x10,
            Register::AdcVbatResultMsb => ADC_BASE + 0x11,
            Register::AdcNtcResultMsb => ADC_BASE + 0x12,
            Register::AdcTempResultMsb => ADC_BASE + 0x13,
            Register::AdcVsysResultMsb => ADC_BASE + 0x14,
            Register::AdcGp0ResultLsbs => ADC_BASE + 0x15,
            Register::AdcVbatBurstResultMsb(i) => ADC_BASE + 0x16 + i,
            Register::AdcGp1ResultLsbs => ADC_BASE + 0x1A,
            Register::GpioMode(i) => GPIO_BASE + i,
            Register::GpioDrive(i) => GPIO_BASE + 0x05 + i,
            Register::GpioPullUp(i) => GPIO_BASE + 0x0A + i,
            Register::GpioPullDown(i) => GPIO_BASE + 0x0F + i,
            Register::GpioOpenDrain(i) => GPIO_BASE + 0x14 + i,
            Register::GpioDebounce(i) => GPIO_BASE + 0x19 + i,
            Register::GpioStatus => GPIO_BASE + 0x1E,
            Register::PofConfig => POF_BASE as int,
            Register::LedModeSelect(i) => LED_BASE + i,
            Register::LedSet(i) => LED_BASE + 0x03 + 2 * i,
            Register::LedClear(i) => LED_BASE + 0x04 + 2 * i,
            Register::ShipTaskEnterHibernate => SHIP_BASE as int,
            Register::ShipTaskConfigStrobe => SHIP_BASE + 0x01,
            Register::ShipTaskEnterShipMode => SHIP_BASE + 0x02,
            Register::ShipTaskResetConfig => SHIP_BASE + 0x03,
            Register::ShipHoldConfig => SHIP_BASE + 0x04,
            Register::ShipHoldStatus => SHIP_BASE + 0x05,
            Register::LongPressResetConfig => SHIP_BASE + 0x06,
        }
    }

    /// The bus address of the register.
    pub fn address(self) -> (r: u16)
        requires
            self.valid(),
        ensures
            r == self.spec_address(),
    {
        match self {
            Register::ChargerIsetMsb => CHARGER_BASE + 0x08,
            Register::ChargerIsetLsb => CHARGER_BASE + 0x09,
            Register::ChargerIsetDischargeMsb => CHARGER_BASE + 0x0A,
            Register::ChargerIsetDischargeLsb => CHARGER_BASE + 0x0B,
            Register::BuckEnableSet(i) => BUCK_BASE + 2 * (i as u16),
            Register::BuckEnableClear(i) => BUCK_BASE + 0x01 + 2 * (i as u16),
            Register::BuckPwmSet(i) => BUCK_BASE + 0x04 + 2 * (i as u16),
            Register::BuckPwmClear(i) => BUCK_BASE + 0x05 + 2 * (i as u16),
            Register::BuckNormalVout(i) => BUCK_BASE + 0x08 + 2 * (i as u16),
            Register::BuckRetentionVout(i) => BUCK_BASE + 0x09 + 2 * (i as u16),
            Register::BuckEnableControl => BUCK_BASE + 0x0C,
            Register::BuckRetentionControl => BUCK_BASE + 0x0D,
            Register::BuckPwmControl => BUCK_BASE + 0x0E,
            Register::BuckSoftwareControlSelect => BUCK_BASE + 0x0F,
            Register::BuckVoutStatus(i) => BUCK_BASE + 0x10 + (i as u16),
            Register::BuckControl0 => BUCK_BASE + 0x15,
            Register::BuckStatus => BUCK_BASE + 0x34,
            Register::AdcTaskVbatMeasure => ADC_BASE,
            Register::AdcTaskNtcMeasure => ADC_BASE + 0x01,
            Register::AdcTaskTempMeasure => ADC_BASE + 0x02,
            Register::AdcTaskVsysMeasure => ADC_BASE + 0x03,
            Register::AdcTaskIbatMeasure => ADC_BASE + 0x06,
            Register::AdcConfig => ADC_BASE + 0x09,
            Register::AdcIbatMeasureStatus => ADC_BASE + 0x10,
            Register::AdcVbatResultMsb => ADC_BASE + 0x11,
            Register::AdcNtcResultMsb => ADC_BASE + 0x12,
            Register::AdcTempResultMsb => ADC_BASE + 0x13,
            Register::AdcVsysResultMsb => ADC_BASE + 0x14,
            Register::AdcGp0ResultLsbs => ADC_BASE + 0x15,
            Register::AdcVbatBurstResultMsb(i) => ADC_BASE + 0x16 + (i as u16),
            Register::AdcGp1ResultLsbs => ADC_BASE + 0x1A,
            Register::GpioMode(i) => GPIO_BASE + (i as u16),
            Register::GpioDrive(i) => GPIO_BASE + 0x05 + (i as u16),
            Register::GpioPullUp(i) => GPIO_BASE + 0x0A + (i as u16),
            Register::GpioPullDown(i) => GPIO_BASE + 0x0F + (i as u16),
            Register::GpioOpenDrain(i) => GPIO_BASE + 0x14 + (i as u16),
            Register::GpioDebounce(i) => GPIO_BASE + 0x19 + (i as u16),
            Register::GpioStatus => GPIO_BASE + 0x1E,
            Register::PofConfig => POF_BASE,
            Register::LedModeSelect(i) => LED_BASE + (i as u16),
            Register::LedSet(i) => LED_BASE + 0x03 + 2 * (i as u16),
            Register::LedClear(i) => LED_BASE + 0x04 + 2 * (i as u16),
            Register::ShipTaskEnterHibernate => SHIP_BASE,
            Register::ShipTaskConfigStrobe => SHIP_BASE + 0x01,
            Register::ShipTaskEnterShipMode => SHIP_BASE + 0x02,
            Register::ShipTaskResetConfig => SHIP_BASE + 0x03,
            Register::ShipHoldConfig => SHIP_BASE + 0x04,
            Register::ShipHoldStatus => SHIP_BASE + 0x05,
            Register::LongPressResetConfig => SHIP_BASE + 0x06,
        }
    }
}

/// One bus transaction of a configuration operation.
#[derive(Copy, Clone, Debug, PartialEq, Eq, Structural)]
pub enum RegisterOp {
    /// Write `value` to the register.
    Write { address: u16, value: u8 },
    /// Read the register, replace the bits under `mask` with those of
    /// `value`, and write the result back.
    Modify { address: u16, mask: u8, value: u8 },
}

/// A write of `value` to `register`.
pub open spec fn write_op(register: Register, value: u8) -> RegisterOp {
    RegisterOp::Write { address: register.spec_address() as u16, value }
}

/// A read-modify-write of the bits under `mask` of `register`.
pub open spec fn modify_op(register: Register, mask: u8, value: u8) -> RegisterOp {
    RegisterOp::Modify { address: register.spec_address() as u16, mask, value }
}

/// The value that a `Modify` writes back over `old`.
pub open spec fn spec_modified(old: u8, mask: u8, value: u8) -> u8 {
    (old & !mask) | (value & mask)
}

/// Replaces the bits of `old` under `mask` with those of `value`; the other
/// bits are kept.
pub fn modified(old: u8, mask: u8, value: u8) -> (r: u8)
    ensures
        r == spec_modified(old, mask, value),
        r & mask == value & mask,
        r & !mask == old & !mask,
{
    let r: u8 = (old & !mask) | (value & mask);
    assert(r & mask == value & mask && r & !mask == old & !mask) by (bit_vector)
        requires
            r == (old & !mask) | (value & mask),
    ;
    r
}

/// Builds a write of `value` to `register`.
pub fn write_reg(register: Register, value: u8) -> (r: RegisterOp)
    requires
        register.valid(),
    ensures
        r == write_op(register, value),
{
    RegisterOp::Write { address: register.address(), value }
}

/// Builds a read-modify-write of the bits under `mask` of `register`.
pub fn modify_reg(register: Register, mask: u8, value: u8) -> (r: RegisterOp)
    requires
        register.valid(),
    ensures
        r == modify_op(register, mask, value),
{
    RegisterOp::Modify { address: register.address(), mask, value }
}

} // verus!
