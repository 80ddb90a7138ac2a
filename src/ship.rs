use vstd::prelude::*;

use crate::registers::{modify_op, modify_reg, write_op, write_reg, Register, RegisterOp};

verus! {

/// How long the ship-hold button must be held.
#[derive(Copy, Clone, Debug, PartialEq, Eq, Structural)]
pub enum ShipHoldTime {
    Ms16,
    Ms32,
    Ms64,
    Ms96,
    Ms304,
    Ms608,
    Ms1008,
    Ms3008,
}

impl ShipHoldTime {
    pub open spec fn code(self) -> u8 {
        match self {
            ShipHoldTime::Ms16 => 0,
            ShipHoldTime::Ms32 => 1,
            ShipHoldTime::Ms64 => 2,
            ShipHoldTime::Ms96 => 3,
            ShipHoldTime::Ms304 => 4,
            ShipHoldTime::Ms608 => 5,
            ShipHoldTime::Ms1008 => 6,
            ShipHoldTime::Ms3008 => 7,
        }
    }

    pub fn to_code(self) -> (r: u8)
        ensures
            r == self.code(),
    {
        match self {
            ShipHoldTime::Ms16 => 0,
            ShipHoldTime::Ms32 => 1,
            ShipHoldTime::Ms64 => 2,
            ShipHoldTime::Ms96 => 3,
            ShipHoldTime::Ms304 => 4,
            ShipHoldTime::Ms608 => 5,
            ShipHoldTime::Ms1008 => 6,
            ShipHoldTime::Ms3008 => 7,
        }
    }
}

/// Long-press reset configuration bits: reset disabled in bit 0, the second
/// button (GPIO0) in bit 1.
pub const LONG_PRESS_DISABLE_MASK: u8 = 0x01;
pub const LONG_PRESS_TWO_BUTTON_MASK: u8 = 0x02;

/// Triggers the hibernate task.
pub fn enter_hibernate_ops() -> (r: Vec<RegisterOp>)
    ensures
        r@ == seq![write_op(Register::ShipTaskEnterHibernate, 1)],
{
    let mut ops: Vec<RegisterOp> = Vec::new();
    ops.push(write_reg(Register::ShipTaskEnterHibernate, 1));
    ops
}

/// Triggers the ship-mode task.
pub fn enter_ship_mode_ops() -> (r: Vec<RegisterOp>)
    ensures
        r@ == seq![write_op(Register::ShipTaskEnterShipMode, 1)],
{
    let mut ops: Vec<RegisterOp> = Vec::new();
    ops.push(write_reg(Register::ShipTaskEnterShipMode, 1));
    ops
}

/// Triggers the reset of the ship-hold configuration.
pub fn reset_ship_hold_config_ops() -> (r: Vec<RegisterOp>)
    ensures
        r@ == seq![write_op(Register::ShipTaskResetConfig, 1)],
{
    let mut ops: Vec<RegisterOp> = Vec::new();
    ops.push(write_reg(Register::ShipTaskResetConfig, 1));
    ops
}

/// Sets the ship-hold press time, then loads the new configuration.
pub fn ship_hold_press_timer_ops(time: ShipHoldTime) -> (r: Vec<RegisterOp>)
    ensures
        r@ == seq![
            write_op(Register::ShipHoldConfig, time.code()),
            write_op(Register::ShipTaskConfigStrobe, 1),
        ],
{
    let mut ops: Vec<RegisterOp> = Vec::new();
    ops.push(write_reg(Register::ShipHoldConfig, time.to_code()));
    ops.push(write_reg(Register::ShipTaskConfigStrobe, 1));
    ops
}

/// Enables or disables the long-press reset, then loads the new
/// configuration.
pub fn long_press_reset_ops(enable: bool) -> (r: Vec<RegisterOp>)
    ensures
        r@ == seq![
            modify_op(
                Register::LongPressResetConfig,
                LONG_PRESS_DISABLE_MASK,
                if enable { 0 } else { LONG_PRESS_DISABLE_MASK },
            ),
            write_op(Register::ShipTaskConfigStrobe, 1),
        ],
{
    let mut ops: Vec<RegisterOp> = Vec::new();
    let value: u8 = if enable { 0 } else { LONG_PRESS_DISABLE_MASK };
    ops.push(modify_reg(Register::LongPressResetConfig, LONG_PRESS_DISABLE_MASK, value));
    ops.push(write_reg(Register::ShipTaskConfigStrobe, 1));
    ops
}

/// Selects whether the long-press reset needs the ship-hold button alone or
/// the button together with GPIO0, then loads the new configuration.
pub fn long_press_buttons_ops(with_gpio0: bool) -> (r: Vec<RegisterOp>)
    ensures
        r@ == seq![
            modify_op(
                Register::LongPressResetConfig,
                LONG_PRESS_TWO_BUTTON_MASK,
                if with_gpio0 { LONG_PRESS_TWO_BUTTON_MASK } else { 0 },
            ),
            write_op(Register::ShipTaskConfigStrobe, 1),
        ],
{
    let mut ops: Vec<RegisterOp> = Vec::new();
    let value: u8 = if with_gpio0 { LONG_PRESS_TWO_BUTTON_MASK } else { 0 };
    ops.push(modify_reg(Register::LongPressResetConfig, LONG_PRESS_TWO_BUTTON_MASK, value));
    ops.push(write_reg(Register::ShipTaskConfigStrobe, 1));
    ops
}

} // verus!
