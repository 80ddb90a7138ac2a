use vstd::prelude::*;
use vstd::std_specs::convert::{FromSpecImpl, TryFromSpecImpl};

use crate::registers::{write_op, write_reg, Register, RegisterOp};

verus! {

/// GPIO pins of the PMIC, or none
#[derive(Copy, Clone, Debug, PartialEq, Eq, Structural)]
pub enum Gpio {
    /// No GPIO
    NoGpio,
    /// GPIO0
    Gpio0,
    /// GPIO1
    Gpio1,
    /// GPIO2
    Gpio2,
    /// GPIO3
    Gpio3,
    /// GPIO4
    Gpio4,
}

impl Gpio {
    /// The register code of the value.
    pub open spec fn code(self) -> u8 {
        match self {
            Gpio::NoGpio => 0,
            Gpio::Gpio0 => 1,
            Gpio::Gpio1 => 2,
            Gpio::Gpio2 => 3,
            Gpio::Gpio3 => 4,
            Gpio::Gpio4 => 5,
        }
    }

    /// The value that the register code `v` stands for, if any.
    pub open spec fn decode(v: u8) -> Result<Gpio, ()> {
        if v == 0 {
            Ok(Gpio::NoGpio)
        } else if v == 1 {
            Ok(Gpio::Gpio0)
        } else if v == 2 {
            Ok(Gpio::Gpio1)
        } else if v == 3 {
            Ok(Gpio::Gpio2)
        } else if v == 4 {
            Ok(Gpio::Gpio3)
        } else if v == 5 {
            Ok(Gpio::Gpio4)
        } else {
            Err(())
        }
    }
}

impl TryFrom<u8> for Gpio {
    type Error = ();

    fn try_from(value: u8) -> (r: Result<Self, Self::Error>) {
        match value {
            0 => Ok(Gpio::NoGpio),
            1 => Ok(Gpio::Gpio0),
            2 => Ok(Gpio::Gpio1),
            3 => Ok(Gpio::Gpio2),
            4 => Ok(Gpio::Gpio3),
            5 => Ok(Gpio::Gpio4),
            _ => Err(()),
        }
    }
}

impl TryFromSpecImpl<u8> for Gpio {
    open spec fn obeys_try_from_spec() -> bool {
        true
    }

    open spec fn try_from_spec(v: u8) -> Result<Gpio, ()> {
        Gpio::decode(v)
    }
}

impl From<Gpio> for u8 {
    fn from(value: Gpio) -> (r: u8) {
        match value {
            Gpio::NoGpio => 0,
            Gpio::Gpio0 => 1,
            Gpio::Gpio1 => 2,
            Gpio::Gpio2 => 3,
            Gpio::Gpio3 => 4,
            Gpio::Gpio4 => 5,
        }
    }
}

impl FromSpecImpl<Gpio> for u8 {
    open spec fn obeys_from_spec() -> bool {
        true
    }

    open spec fn from_spec(v: Gpio) -> u8 {
        v.code()
    }
}

/// GPIO polarity
#[derive(Copy, Clone, Debug, PartialEq, Eq, Structural)]
pub enum GpioPolarity {
    /// Active high
    NotInverted,
    /// Active low
    Inverted,
}

impl GpioPolarity {
    /// The register code of the value.
    pub open spec fn code(self) -> u8 {
        match self {
            GpioPolarity::NotInverted => 0,
            GpioPolarity::Inverted => 1,
        }
    }

    /// The value that the register code `v` stands for, if any.
    pub open spec fn decode(v: u8) -> Result<GpioPolarity, ()> {
        if v == 0 {
            Ok(GpioPolarity::NotInverted)
        } else if v == 1 {
            Ok(GpioPolarity::Inverted)
        } else {
            Err(())
        }
    }
}

impl TryFrom<u8> for GpioPolarity {
    type Error = ();

    fn try_from(value: u8) -> (r: Result<Self, Self::Error>) {
        match value {
            0 => Ok(GpioPolarity::NotInverted),
            1 => Ok(GpioPolarity::Inverted),
            _ => Err(()),
        }
    }
}

impl TryFromSpecImpl<u8> for GpioPolarity {
    open spec fn obeys_try_from_spec() -> bool {
        true
    }

    open spec fn try_from_spec(v: u8) -> Result<GpioPolarity, ()> {
        GpioPolarity::decode(v)
    }
}

impl From<GpioPolarity> for u8 {
    fn from(value: GpioPolarity) -> (r: u8) {
        match value {
            GpioPolarity::NotInverted => 0,
            GpioPolarity::Inverted => 1,
        }
    }
}

impl FromSpecImpl<GpioPolarity> for u8 {
    open spec fn obeys_from_spec() -> bool {
        true
    }

    open spec fn from_spec(v: GpioPolarity) -> u8 {
        v.code()
    }
}

/// GPIO mode configuration
#[derive(Copy, Clone, Debug, PartialEq, Eq, Structural)]
pub enum GpioMode {
    /// GPI Input
    GpiInput,
    /// GPI Logic1
    GpiLogic1,
    /// GPI Logic0
    GpiLogic0,
    /// GPI Rising Edge Event
    GpiEventRise,
    /// GPI Falling Edge Event
    GpiEventFall,
    /// GPO Interrupt
    GpoIrq,
    /// GPO Reset
    GpoReset,
    /// GPO PwrLossWarn
    GpoPowerLossWarning,
    /// GPO Logic1
    GpoLogic1,
    /// GPO Logic0
    GpoLogic0,
}

impl GpioMode {
    /// The register code of the value.
    pub open spec fn code(self) -> u8 {
        match self {
            GpioMode::GpiInput => 0,
            GpioMode::GpiLogic1 => 1,
            GpioMode::GpiLogic0 => 2,
            GpioMode::GpiEventRise => 3,
            GpioMode::GpiEventFall => 4,
            GpioMode::GpoIrq => 5,
            GpioMode::GpoReset => 6,
            GpioMode::GpoPowerLossWarning => 7,
            GpioMode::GpoLogic1 => 8,
            GpioMode::GpoLogic0 => 9,
        }
    }

    /// The value that the register code `v` stands for, if any.
    pub open spec fn decode(v: u8) -> Result<GpioMode, ()> {
        if v == 0 {
            Ok(GpioMode::GpiInput)
        } else if v == 1 {
            Ok(GpioMode::GpiLogic1)
        } else if v == 2 {
            Ok(GpioMode::GpiLogic0)
        } else if v == 3 {
            Ok(GpioMode::GpiEventRise)
        } else if v == 4 {
            Ok(GpioMode::GpiEventFall)
        } else if v == 5 {
            Ok(GpioMode::GpoIrq)
        } else if v == 6 {
            Ok(GpioMode::GpoReset)
        } else if v == 7 {
            Ok(GpioMode::GpoPowerLossWarning)
        } else if v == 8 {
            Ok(GpioMode::GpoLogic1)
        } else if v == 9 {
            Ok(GpioMode::GpoLogic0)
        } else {
            Err(())
        }
    }
}

impl TryFrom<u8> for GpioMode {
    type Error = ();

    fn try_from(value: u8) -> (r: Result<Self, Self::Error>) {
        match value {
            0 => Ok(GpioMode::GpiInput),
            1 => Ok(GpioMode::GpiLogic1),
            2 => Ok(GpioMode::GpiLogic0),
            3 => Ok(GpioMode::GpiEventRise),
            4 => Ok(GpioMode::GpiEventFall),
            5 => Ok(GpioMode::GpoIrq),
            6 => Ok(GpioMode::GpoReset),
            7 => Ok(GpioMode::GpoPowerLossWarning),
            8 => Ok(GpioMode::GpoLogic1),
            9 => Ok(GpioMode::GpoLogic0),
            _ => Err(()),
        }
    }
}

impl TryFromSpecImpl<u8> for GpioMode {
    open spec fn obeys_try_from_spec() -> bool {
        true
    }

    open spec fn try_from_spec(v: u8) -> Result<GpioMode, ()> {
        GpioMode::decode(v)
    }
}

impl From<GpioMode> for u8 {
    fn from(value: GpioMode) -> (r: u8) {
        match value {
            GpioMode::GpiInput => 0,
            GpioMode::GpiLogic1 => 1,
            GpioMode::GpiLogic0 => 2,
            GpioMode::GpiEventRise => 3,
            GpioMode::GpiEventFall => 4,
            GpioMode::GpoIrq => 5,
            GpioMode::GpoReset => 6,
            GpioMode::GpoPowerLossWarning => 7,
            GpioMode::GpoLogic1 => 8,
            GpioMode::GpoLogic0 => 9,
        }
    }
}

impl FromSpecImpl<GpioMode> for u8 {
    open spec fn obeys_from_spec() -> bool {
        true
    }

    open spec fn from_spec(v: GpioMode) -> u8 {
        v.code()
    }
}

/// GPIO drive strength configuration
#[derive(Copy, Clone, Debug, PartialEq, Eq, Structural)]
pub enum GpioDriveStrength {
    /// 1mA
    Drive1mA,
    /// 6mA
    Drive6mA,
}

impl GpioDriveStrength {
    /// The register code of the value.
    pub open spec fn code(self) -> u8 {
        match self {
            GpioDriveStrength::Drive1mA => 0,
            GpioDriveStrength::Drive6mA => 1,
        }
    }

    /// The value that the register code `v` stands for, if any.
    pub open spec fn decode(v: u8) -> Result<GpioDriveStrength, ()> {
        if v == 0 {
            Ok(GpioDriveStrength::Drive1mA)
        } else if v == 1 {
            Ok(GpioDriveStrength::Drive6mA)
        } else {
            Err(())
        }
    }
}

impl TryFrom<u8> for GpioDriveStrength {
    type Error = ();

    fn try_from(value: u8) -> (r: Result<Self, Self::Error>) {
        match value {
            0 => Ok(GpioDriveStrength::Drive1mA),
            1 => Ok(GpioDriveStrength::Drive6mA),
            _ => Err(()),
        }
    }
}

impl TryFromSpecImpl<u8> for GpioDriveStrength {
    open spec fn obeys_try_from_spec() -> bool {
        true
    }

    open spec fn try_from_spec(v: u8) -> Result<GpioDriveStrength, ()> {
        GpioDriveStrength::decode(v)
    }
}

impl From<GpioDriveStrength> for u8 {
    fn from(value: GpioDriveStrength) -> (r: u8) {
        match value {
            GpioDriveStrength::Drive1mA => 0,
            GpioDriveStrength::Drive6mA => 1,
        }
    }
}

impl FromSpecImpl<GpioDriveStrength> for u8 {
    open spec fn obeys_from_spec() -> bool {
        true
    }

    open spec fn from_spec(v: GpioDriveStrength) -> u8 {
        v.code()
    }
}

/// GPIO pull-up configuration
#[derive(Copy, Clone, Debug, PartialEq, Eq, Structural)]
pub enum GpioPullUp {
    Disable,
    Enable,
}

impl GpioPullUp {
    /// The register code of the value.
    pub open spec fn code(self) -> u8 {
        match self {
            GpioPullUp::Disable => 0,
            GpioPullUp::Enable => 1,
        }
    }

    /// The value that the register code `v` stands for, if any.
    pub open spec fn decode(v: u8) -> Result<GpioPullUp, ()> {
        if v == 0 {
            Ok(GpioPullUp::Disable)
        } else if v == 1 {
            Ok(GpioPullUp::Enable)
        } else {
            Err(())
        }
    }
}

impl TryFrom<u8> for GpioPullUp {
    type Error = ();

    fn try_from(value: u8) -> (r: Result<Self, Self::Error>) {
        match value {
            0 => Ok(GpioPullUp::Disable),
            1 => Ok(GpioPullUp::Enable),
            _ => Err(()),
        }
    }
}

impl TryFromSpecImpl<u8> for GpioPullUp {
    open spec fn obeys_try_from_spec() -> bool {
        true
    }

    open spec fn try_from_spec(v: u8) -> Result<GpioPullUp, ()> {
        GpioPullUp::decode(v)
    }
}

impl From<GpioPullUp> for u8 {
    fn from(value: GpioPullUp) -> (r: u8) {
        match value {
            GpioPullUp::Disable => 0,
            GpioPullUp::Enable => 1,
        }
    }
}

impl FromSpecImpl<GpioPullUp> for u8 {
    open spec fn obeys_from_spec() -> bool {
        true
    }

    open spec fn from_spec(v: GpioPullUp) -> u8 {
        v.code()
    }
}

/// GPIO pull-down configuration
#[derive(Copy, Clone, Debug, PartialEq, Eq, Structural)]
pub enum GpioPullDown {
    Disable,
    Enable,
}

impl GpioPullDown {
    /// The register code of the value.
    pub open spec fn code(self) -> u8 {
        match self {
            GpioPullDown::Disable => 0,
            GpioPullDown::Enable => 1,
        }
    }

    /// The value that the register code `v` stands for, if any.
    pub open spec fn decode(v: u8) -> Result<GpioPullDown, ()> {
        if v == 0 {
            Ok(GpioPullDown::Disable)
        } else if v == 1 {
            Ok(GpioPullDown::Enable)
        } else {
            Err(())
        }
    }
}

impl TryFrom<u8> for GpioPullDown {
    type Error = ();

    fn try_from(value: u8) -> (r: Result<Self, Self::Error>) {
        match value {
            0 => Ok(GpioPullDown::Disable),
            1 => Ok(GpioPullDown::Enable),
            _ => Err(()),
        }
    }
}

impl TryFromSpecImpl<u8> for GpioPullDown {
    open spec fn obeys_try_from_spec() -> bool {
        true
    }

    open spec fn try_from_spec(v: u8) -> Result<GpioPullDown, ()> {
        GpioPullDown::decode(v)
    }
}

impl From<GpioPullDown> for u8 {
    fn from(value: GpioPullDown) -> (r: u8) {
        match value {
            GpioPullDown::Disable => 0,
            GpioPullDown::Enable => 1,
        }
    }
}

impl FromSpecImpl<GpioPullDown> for u8 {
    open spec fn obeys_from_spec() -> bool {
        true
    }

    open spec fn from_spec(v: GpioPullDown) -> u8 {
        v.code()
    }
}

/// GPIO open drain configuration
#[derive(Copy, Clone, Debug, PartialEq, Eq, Structural)]
pub enum GpioOpenDrain {
    Disable,
    Enable,
}

impl GpioOpenDrain {
    /// The register code of the value.
    pub open spec fn code(self) -> u8 {
        match self {
            GpioOpenDrain::Disable => 0,
            GpioOpenDrain::Enable => 1,
        }
    }

    /// The value that the register code `v` stands for, if any.
    pub open spec fn decode(v: u8) -> Result<GpioOpenDrain, ()> {
        if v == 0 {
            Ok(GpioOpenDrain::Disable)
        } else if v == 1 {
            Ok(GpioOpenDrain::Enable)
        } else {
            Err(())
        }
    }
}

impl TryFrom<u8> for GpioOpenDrain {
    type Error = ();

    fn try_from(value: u8) -> (r: Result<Self, Self::Error>) {
        match value {
            0 => Ok(GpioOpenDrain::Disable),
            1 => Ok(GpioOpenDrain::Enable),
            _ => Err(()),
        }
    }
}

impl TryFromSpecImpl<u8> for GpioOpenDrain {
    open spec fn obeys_try_from_spec() -> bool {
        true
    }

    open spec fn try_from_spec(v: u8) -> Result<GpioOpenDrain, ()> {
        GpioOpenDrain::decode(v)
    }
}

impl From<GpioOpenDrain> for u8 {
    fn from(value: GpioOpenDrain) -> (r: u8) {
        match value {
            GpioOpenDrain::Disable => 0,
            GpioOpenDrain::Enable => 1,
        }
    }
}

impl FromSpecImpl<GpioOpenDrain> for u8 {
    open spec fn obeys_from_spec() -> bool {
        true
    }

    open spec fn from_spec(v: GpioOpenDrain) -> u8 {
        v.code()
    }
}

/// GPIO debounce configuration
#[derive(Copy, Clone, Debug, PartialEq, Eq, Structural)]
pub enum GpioDebounce {
    Disable,
    Enable,
}

impl GpioDebounce {
    /// The register code of the value.
    pub open spec fn code(self) -> u8 {
        match self {
            GpioDebounce::Disable => 0,
            GpioDebounce::Enable => 1,
        }
    }

    /// The value that the register code `v` stands for, if any.
    pub open spec fn decode(v: u8) -> Result<GpioDebounce, ()> {
        if v == 0 {
            Ok(GpioDebounce::Disable)
        } else if v == 1 {
            Ok(GpioDebounce::Enable)
        } else {
            Err(())
        }
    }
}

impl TryFrom<u8> for GpioDebounce {
    type Error = ();

    fn try_from(value: u8) -> (r: Result<Self, Self::Error>) {
        match value {
            0 => Ok(GpioDebounce::Disable),
            1 => Ok(GpioDebounce::Enable),
            _ => Err(()),
        }
    }
}

impl TryFromSpecImpl<u8> for GpioDebounce {
    open spec fn obeys_try_from_spec() -> bool {
        true
    }

    open spec fn try_from_spec(v: u8) -> Result<GpioDebounce, ()> {
        GpioDebounce::decode(v)
    }
}

impl From<GpioDebounce> for u8 {
    fn from(value: GpioDebounce) -> (r: u8) {
        match value {
            GpioDebounce::Disable => 0,
            GpioDebounce::Enable => 1,
        }
    }
}

impl FromSpecImpl<GpioDebounce> for u8 {
    open spec fn obeys_from_spec() -> bool {
        true
    }

    open spec fn from_spec(v: GpioDebounce) -> u8 {
        v.code()
    }
}

/// GPIO input status
#[derive(Copy, Clone, Debug, PartialEq, Eq, Structural)]
pub enum GpioStatus {
    Low,
    High,
}

impl GpioStatus {
    /// The register code of the value.
    pub open spec fn code(self) -> u8 {
        match self {
            GpioStatus::Low => 0,
            GpioStatus::High => 1,
        }
    }

    /// The value that the register code `v` stands for, if any.
    pub open spec fn decode(v: u8) -> Result<GpioStatus, ()> {
        if v == 0 {
            Ok(GpioStatus::Low)
        } else if v == 1 {
            Ok(GpioStatus::High)
        } else {
            Err(())
        }
    }
}

impl TryFrom<u8> for GpioStatus {
    type Error = ();

    fn try_from(value: u8) -> (r: Result<Self, Self::Error>) {
        match value {
            0 => Ok(GpioStatus::Low),
            1 => Ok(GpioStatus::High),
            _ => Err(()),
        }
    }
}

impl TryFromSpecImpl<u8> for GpioStatus {
    open spec fn obeys_try_from_spec() -> bool {
        true
    }

    open spec fn try_from_spec(v: u8) -> Result<GpioStatus, ()> {
        GpioStatus::decode(v)
    }
}

impl From<GpioStatus> for u8 {
    fn from(value: GpioStatus) -> (r: u8) {
        match value {
            GpioStatus::Low => 0,
            GpioStatus::High => 1,
        }
    }
}

impl FromSpecImpl<GpioStatus> for u8 {
    open spec fn obeys_from_spec() -> bool {
        true
    }

    open spec fn from_spec(v: GpioStatus) -> u8 {
        v.code()
    }
}

/// GPIO configuration.
///
/// Pull-down is prioritized if both pull-up and pull-down are activated on a
/// GPIO pin at the same time.
#[derive(Copy, Clone, Debug, PartialEq, Eq, Structural)]
pub struct GpioConfig {
    pub mode: GpioMode,
    pub drive_strength: GpioDriveStrength,
    pub pull_up: GpioPullUp,
    pub pull_down: GpioPullDown,
    pub open_drain: GpioOpenDrain,
    pub debounce: GpioDebounce,
}

impl GpioConfig {
    /// The configuration after reset: an input with pull-down, 1 mA drive,
    /// no pull-up, no open drain, no debounce.
    pub open spec fn spec_default() -> GpioConfig {
        GpioConfig {
            mode: GpioMode::GpiInput,
            drive_strength: GpioDriveStrength::Drive1mA,
            pull_up: GpioPullUp::Disable,
            pull_down: GpioPullDown::Enable,
            open_drain: GpioOpenDrain::Disable,
            debounce: GpioDebounce::Disable,
        }
    }
}

impl Default for GpioConfig {
    fn default() -> (r: Self)
        ensures
            r == GpioConfig::spec_default(),
    {
        GpioConfig {
            mode: GpioMode::GpiInput,
            drive_strength: GpioDriveStrength::Drive1mA,
            pull_up: GpioPullUp::Disable,
            pull_down: GpioPullDown::Enable,
            open_drain: GpioOpenDrain::Disable,
            debounce: GpioDebounce::Disable,
        }
    }
}

/// Builds a [`GpioConfig`] one setting at a time, from the reset
/// configuration.
#[derive(Copy, Clone, Debug, PartialEq, Eq, Structural)]
pub struct GpioConfigBuilder {
    config: GpioConfig,
}

impl GpioConfigBuilder {
    /// The configuration built so far.
    pub closed spec fn spec_config(self) -> GpioConfig {
        self.config
    }

    pub fn new() -> (r: Self)
        ensures
            r.spec_config() == GpioConfig::spec_default(),
    {
        GpioConfigBuilder { config: GpioConfig::default() }
    }

    pub fn mode(self, mode: GpioMode) -> (r: Self)
        ensures
            r.spec_config() == (GpioConfig { mode, ..self.spec_config() }),
    {
        let mut b = self;
        b.config.mode = mode;
        b
    }

    pub fn drive_strength(self, strength: GpioDriveStrength) -> (r: Self)
        ensures
            r.spec_config() == (GpioConfig { drive_strength: strength, ..self.spec_config() }),
    {
        let mut b = self;
        b.config.drive_strength = strength;
        b
    }

    pub fn pull_up(self, pull_up: GpioPullUp) -> (r: Self)
        ensures
            r.spec_config() == (GpioConfig { pull_up, ..self.spec_config() }),
    {
        let mut b = self;
        b.config.pull_up = pull_up;
        b
    }

    pub fn pull_down(self, pull_down: GpioPullDown) -> (r: Self)
        ensures
            r.spec_config() == (GpioConfig { pull_down, ..self.spec_config() }),
    {
        let mut b = self;
        b.config.pull_down = pull_down;
        b
    }

    pub fn open_drain(self, open_drain: GpioOpenDrain) -> (r: Self)
        ensures
            r.spec_config() == (GpioConfig { open_drain, ..self.spec_config() }),
    {
        let mut b = self;
        b.config.open_drain = open_drain;
        b
    }

    pub fn debounce(self, debounce: GpioDebounce) -> (r: Self)
        ensures
            r.spec_config() == (GpioConfig { debounce, ..self.spec_config() }),
    {
        let mut b = self;
        b.config.debounce = debounce;
        b
    }

    pub fn build(self) -> (r: GpioConfig)
        ensures
            r == self.spec_config(),
    {
        self.config
    }
}

impl Default for GpioConfigBuilder {
    fn default() -> (r: Self)
        ensures
            r.spec_config() == GpioConfig::spec_default(),
    {
        GpioConfigBuilder::new()
    }
}

/// Writes each setting of `config` to its register for GPIO `pin` (0 to 4):
/// mode, drive strength, pull-up, pull-down, open drain, debounce.
pub fn configure_gpio_ops(pin: usize, config: GpioConfig) -> (r: Vec<RegisterOp>)
    requires
        pin < 5,
    ensures
        r@ == seq![
            write_op(Register::GpioMode(pin as u8), config.mode.code()),
            write_op(Register::GpioDrive(pin as u8), config.drive_strength.code()),
            write_op(Register::GpioPullUp(pin as u8), config.pull_up.code()),
            write_op(Register::GpioPullDown(pin as u8), config.pull_down.code()),
            write_op(Register::GpioOpenDrain(pin as u8), config.open_drain.code()),
            write_op(Register::GpioDebounce(pin as u8), config.debounce.code()),
        ],
{
    let p = pin as u8;
    let mut ops: Vec<RegisterOp> = Vec::new();
    ops.push(write_reg(Register::GpioMode(p), u8::from(config.mode)));
    ops.push(write_reg(Register::GpioDrive(p), u8::from(config.drive_strength)));
    ops.push(write_reg(Register::GpioPullUp(p), u8::from(config.pull_up)));
    ops.push(write_reg(Register::GpioPullDown(p), u8::from(config.pull_down)));
    ops.push(write_reg(Register::GpioOpenDrain(p), u8::from(config.open_drain)));
    ops.push(write_reg(Register::GpioDebounce(p), u8::from(config.debounce)));
    ops
}

/// The bit of GPIO `pin` in the GPIO status register.
pub open spec fn status_bit(status: u8, pin: usize) -> bool {
    (status as int / vstd::arithmetic::power2::pow2(pin as nat) as int) % 2 == 1
}

/// The input level of GPIO `pin` (0 to 4) in a GPIO status register value:
/// bit `pin` set is high.
pub fn gpio_status(status: u8, pin: usize) -> (r: GpioStatus)
    requires
        pin < 5,
    ensures
        r == (if status_bit(status, pin) { GpioStatus::High } else { GpioStatus::Low }),
{
    let shifted: u8 = status >> (pin as u8);
    proof {
        vstd::arithmetic::power2::lemma2_to64();
        let p = pin as u8;
        assert(status >> p == status / (1u8 << p) as u8) by (bit_vector)
            requires p < 5;
        assert((1u8 << p) as u8 == vstd::arithmetic::power2::pow2(pin as nat)) by {
            if p == 0 { assert(1u8 << 0u8 == 1) by (bit_vector); }
            else if p == 1 { assert(1u8 << 1u8 == 2) by (bit_vector); }
            else if p == 2 { assert(1u8 << 2u8 == 4) by (bit_vector); }
            else if p == 3 { assert(1u8 << 3u8 == 8) by (bit_vector); }
            else { assert(1u8 << 4u8 == 16) by (bit_vector); }
        }
    }
    if shifted % 2 == 1 {
        GpioStatus::High
    } else {
        GpioStatus::Low
    }
}

} // verus!
