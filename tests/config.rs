use npm1300_rs::buck::{
    buck_forced_pwm_ops, buck_gpio_enable_ops, buck_normal_voltage_ops, buck_power_ops,
    buck_pull_down_ops, buck_retention_ops, disable_buck_retention_ops, gpio_to_register_index,
    BuckVoltage, Config,
};
use npm1300_rs::charger::{ChargerEnableSet, ChargerTerminationVoltage, IbatStatuscodes};
use npm1300_rs::common::Task;
use npm1300_rs::gpios::{
    configure_gpio_ops, gpio_status, Gpio, GpioConfig, GpioConfigBuilder, GpioDebounce,
    GpioDriveStrength, GpioMode, GpioOpenDrain, GpioPolarity, GpioPullDown, GpioPullUp,
    GpioStatus,
};
use npm1300_rs::leds::{led_drive_ops, led_mode_ops, LedMode};
use npm1300_rs::pof::{pof_polarity, pof_threshold, vsys_threshold_ops, PofWarningPolarity, VsysThreshold};
use npm1300_rs::registers::{modified, Register, RegisterOp};
use npm1300_rs::ship::{long_press_reset_ops, ship_hold_press_timer_ops, ShipHoldTime};
use npm1300_rs::sysreg::VbusInCurrentLimit;
use npm1300_rs::NPM1300Error;

#[test]
fn task_codes() {
    assert_eq!(Task::try_from(0u8), Ok(Task::NoEffect));
    assert_eq!(Task::try_from(1u8), Ok(Task::Trigger));
    assert_eq!(Task::try_from(2u8), Err(()));
    assert_eq!(u8::from(Task::Trigger), 1);
}

#[test]
fn enum_codes_round_trip() {
    assert_eq!(BuckVoltage::try_from(24u8), Ok(BuckVoltage::V3_30));
    assert_eq!(BuckVoltage::try_from(25u8), Err(()));
    assert_eq!(u8::from(BuckVoltage::V1_8), 8);
    assert_eq!(Gpio::try_from(0u8), Ok(Gpio::NoGpio));
    assert_eq!(Gpio::try_from(5u8), Ok(Gpio::Gpio4));
    assert_eq!(Gpio::try_from(6u8), Err(()));
    assert_eq!(GpioMode::try_from(9u8), Ok(GpioMode::GpoLogic0));
    assert_eq!(GpioMode::try_from(10u8), Err(()));
    assert_eq!(u8::from(GpioMode::GpoPowerLossWarning), 7);
    assert_eq!(LedMode::try_from(2u8), Ok(LedMode::Host));
    assert_eq!(ChargerEnableSet::try_from(1u8), Ok(ChargerEnableSet::EnableCharger));
    assert_eq!(VbusInCurrentLimit::try_from(15u8), Ok(VbusInCurrentLimit::MA1500));
    assert_eq!(VbusInCurrentLimit::try_from(16u8), Err(()));
    assert_eq!(IbatStatuscodes::try_from(13u8), Ok(IbatStatuscodes::IbatStatChargeCool));
    assert_eq!(IbatStatuscodes::try_from(5u8), Err(()));
    assert_eq!(u8::from(IbatStatuscodes::IbatStatChargeNormal), 15);
}

#[test]
fn termination_voltage_reserved_codes() {
    assert_eq!(ChargerTerminationVoltage::try_from(13u8), Ok(ChargerTerminationVoltage::V4_45));
    assert_eq!(ChargerTerminationVoltage::try_from(14u8), Ok(ChargerTerminationVoltage::V3_60));
    assert_eq!(ChargerTerminationVoltage::try_from(15u8), Ok(ChargerTerminationVoltage::V3_60));
    assert_eq!(ChargerTerminationVoltage::try_from(16u8), Err(()));
}

#[test]
fn gpio_builder_sets_each_field() {
    let default = GpioConfigBuilder::new().build();
    assert_eq!(default, GpioConfig::default());
    assert_eq!(default.mode, GpioMode::GpiInput);
    assert_eq!(default.pull_down, GpioPullDown::Enable);
    let c = GpioConfigBuilder::new()
        .mode(GpioMode::GpoLogic1)
        .drive_strength(GpioDriveStrength::Drive6mA)
        .pull_up(GpioPullUp::Enable)
        .pull_down(GpioPullDown::Disable)
        .open_drain(GpioOpenDrain::Enable)
        .debounce(GpioDebounce::Enable)
        .build();
    assert_eq!(c.mode, GpioMode::GpoLogic1);
    assert_eq!(c.drive_strength, GpioDriveStrength::Drive6mA);
    assert_eq!(c.pull_up, GpioPullUp::Enable);
    assert_eq!(c.pull_down, GpioPullDown::Disable);
    assert_eq!(c.open_drain, GpioOpenDrain::Enable);
    assert_eq!(c.debounce, GpioDebounce::Enable);
    assert_eq!(GpioConfigBuilder::default().build(), GpioConfig::default());
}

#[test]
fn gpio_configuration_writes() {
    let c = GpioConfigBuilder::new().mode(GpioMode::GpoIrq).build();
    assert_eq!(
        configure_gpio_ops(2, c),
        vec![
            RegisterOp::Write { address: 0x0602, value: 5 },
            RegisterOp::Write { address: 0x0607, value: 0 },
            RegisterOp::Write { address: 0x060C, value: 0 },
            RegisterOp::Write { address: 0x0611, value: 1 },
            RegisterOp::Write { address: 0x0616, value: 0 },
            RegisterOp::Write { address: 0x061B, value: 0 },
        ]
    );
}

#[test]
fn gpio_status_bits() {
    assert_eq!(gpio_status(0b0_0100, 2), GpioStatus::High);
    assert_eq!(gpio_status(0b0_0100, 1), GpioStatus::Low);
    assert_eq!(gpio_status(0b1_0000, 4), GpioStatus::High);
}

#[test]
fn gpio_register_index() {
    assert_eq!(gpio_to_register_index(Gpio::Gpio0), 0);
    assert_eq!(gpio_to_register_index(Gpio::Gpio4), 4);
}

#[test]
fn buck_default_config() {
    let c = Config::default();
    assert_eq!(c.gpio_buck_enable_control, Gpio::NoGpio);
    assert_eq!(c.gpio_buck_enable_control_polarity, GpioPolarity::NotInverted);
}

#[test]
fn buck_operations() {
    assert_eq!(buck_power_ops(0, true), vec![RegisterOp::Write { address: 0x0400, value: 1 }]);
    assert_eq!(buck_power_ops(1, false), vec![RegisterOp::Write { address: 0x0403, value: 1 }]);
    assert_eq!(buck_forced_pwm_ops(1, true), vec![RegisterOp::Write { address: 0x0406, value: 1 }]);
    assert_eq!(
        buck_normal_voltage_ops(1, BuckVoltage::V3_3),
        vec![
            RegisterOp::Write { address: 0x040A, value: 23 },
            RegisterOp::Modify { address: 0x040F, mask: 2, value: 2 },
        ]
    );
    assert_eq!(
        buck_retention_ops(1, BuckVoltage::V1_0, Gpio::Gpio2, GpioPolarity::Inverted),
        vec![
            RegisterOp::Write { address: 0x0602, value: 0 },
            RegisterOp::Modify { address: 0x040D, mask: 0xF0, value: 0xB0 },
            RegisterOp::Write { address: 0x040B, value: 0 },
            RegisterOp::Modify { address: 0x040F, mask: 2, value: 2 },
        ]
    );
    assert_eq!(
        disable_buck_retention_ops(0),
        vec![RegisterOp::Modify { address: 0x040D, mask: 0x07, value: 0 }]
    );
    assert!(buck_gpio_enable_ops(0, Gpio::NoGpio, GpioPolarity::NotInverted).is_empty());
    assert_eq!(
        buck_gpio_enable_ops(0, Gpio::Gpio0, GpioPolarity::NotInverted),
        vec![
            RegisterOp::Write { address: 0x0600, value: 0 },
            RegisterOp::Modify { address: 0x040C, mask: 0x0F, value: 1 },
        ]
    );
    assert_eq!(
        buck_pull_down_ops(1, true),
        vec![RegisterOp::Modify { address: 0x0415, mask: 8, value: 8 }]
    );
}

#[test]
fn modify_keeps_other_bits() {
    assert_eq!(modified(0xFF, 0x0F, 0x05), 0xF5);
    assert_eq!(modified(0x00, 0xF0, 0xFF), 0xF0);
}

#[test]
fn register_addresses() {
    assert_eq!(Register::AdcGp1ResultLsbs.address(), 0x051A);
    assert_eq!(Register::AdcVbatBurstResultMsb(2).address(), 0x0518);
    assert_eq!(Register::LedClear(2).address(), 0x0A08);
    assert_eq!(Register::BuckStatus.address(), 0x0434);
}

#[test]
fn led_operations() {
    assert_eq!(led_mode_ops(1, LedMode::Host), vec![RegisterOp::Write { address: 0x0A01, value: 2 }]);
    assert_eq!(led_drive_ops(0, true), vec![RegisterOp::Write { address: 0x0A03, value: 1 }]);
    assert_eq!(led_drive_ops(2, false), vec![RegisterOp::Write { address: 0x0A08, value: 1 }]);
}

#[test]
fn ship_operations() {
    assert_eq!(
        ship_hold_press_timer_ops(ShipHoldTime::Ms304),
        vec![
            RegisterOp::Write { address: 0x0B04, value: 4 },
            RegisterOp::Write { address: 0x0B01, value: 1 },
        ]
    );
    assert_eq!(
        long_press_reset_ops(false),
        vec![
            RegisterOp::Modify { address: 0x0B06, mask: 1, value: 1 },
            RegisterOp::Write { address: 0x0B01, value: 1 },
        ]
    );
}

#[test]
fn vsys_threshold_is_checked_before_writing() {
    // 614 / 1023 * 5 V = 3.0009 V is not below 3.0 V.
    assert_eq!(
        vsys_threshold_ops::<()>(614, VsysThreshold::V30),
        Ok(vec![RegisterOp::Modify { address: 0x0900, mask: 0x3C, value: 16 }])
    );
    // 613 / 1023 * 5 V = 2.9961 V is below 3.0 V.
    assert_eq!(
        vsys_threshold_ops::<()>(613, VsysThreshold::V30),
        Err(NPM1300Error::InvalidPofVsysThreshold)
    );
    // Reserved codes count as 2.8 V.
    assert_eq!(
        vsys_threshold_ops::<()>(572, VsysThreshold::Unused12),
        Err(NPM1300Error::InvalidPofVsysThreshold)
    );
}

#[test]
fn pof_config_fields() {
    assert_eq!(pof_threshold(0b0001_0011), VsysThreshold::V30);
    assert_eq!(pof_polarity(0b10), PofWarningPolarity::ActiveHigh);
    assert_eq!(pof_polarity(0b01), PofWarningPolarity::ActiveLow);
}
