use vstd::prelude::*;
use vstd::std_specs::convert::{FromSpecImpl, TryFromSpecImpl};

verus! {

/// Main charger enable control set (write 1 to set)
#[derive(Copy, Clone, Debug, PartialEq, Eq, Structural)]
pub enum ChargerEnableSet {
    /// No effect
    NoEffect,
    /// Charger is enabled
    EnableCharger,
}

impl ChargerEnableSet {
    /// The register code of the value.
    pub open spec fn code(self) -> u8 {
        match self {
            ChargerEnableSet::NoEffect => 0,
            ChargerEnableSet::EnableCharger => 1,
        }
    }

    /// The value that the register code `v` stands for, if any.
    pub open spec fn decode(v: u8) -> Result<ChargerEnableSet, ()> {
        if v == 0 {
            Ok(ChargerEnableSet::NoEffect)
        } else if v == 1 {
            Ok(ChargerEnableSet::EnableCharger)
        } else {
            Err(())
        }
    }
}

impl TryFrom<u8> for ChargerEnableSet {
    type Error = ();

    fn try_from(value: u8) -> (r: Result<Self, Self::Error>) {
        match value {
            0 => Ok(ChargerEnableSet::NoEffect),
            1 => Ok(ChargerEnableSet::EnableCharger),
            _ => Err(()),
        }
    }
}

impl TryFromSpecImpl<u8> for ChargerEnableSet {
    open spec fn obeys_try_from_spec() -> bool {
        true
    }

    open spec fn try_from_spec(v: u8) -> Result<ChargerEnableSet, ()> {
        ChargerEnableSet::decode(v)
    }
}

impl From<ChargerEnableSet> for u8 {
    fn from(value: ChargerEnableSet) -> (r: u8) {
        match value {
            ChargerEnableSet::NoEffect => 0,
            ChargerEnableSet::EnableCharger => 1,
        }
    }
}

impl FromSpecImpl<ChargerEnableSet> for u8 {
    open spec fn obeys_from_spec() -> bool {
        true
    }

    open spec fn from_spec(v: ChargerEnableSet) -> u8 {
        v.code()
    }
}

/// Sets full charge current in cool temperature conditions (write 1 to set)
#[derive(Copy, Clone, Debug, PartialEq, Eq, Structural)]
pub enum ChargerEnableFullCurrentChargeInCoolTempSet {
    /// No effect
    NoEffect,
    /// Charge at full current when the battery is cool
    EnableFullCurrentChargeInCoolTemp,
}

impl ChargerEnableFullCurrentChargeInCoolTempSet {
    /// The register code of the value.
    pub open spec fn code(self) -> u8 {
        match self {
            ChargerEnableFullCurrentChargeInCoolTempSet::NoEffect => 0,
            ChargerEnableFullCurrentChargeInCoolTempSet::EnableFullCurrentChargeInCoolTemp => 1,
        }
    }

    /// The value that the register code `v` stands for, if any.
    pub open spec fn decode(v: u8) -> Result<ChargerEnableFullCurrentChargeInCoolTempSet, ()> {
        if v == 0 {
            Ok(ChargerEnableFullCurrentChargeInCoolTempSet::NoEffect)
        } else if v == 1 {
            Ok(ChargerEnableFullCurrentChargeInCoolTempSet::EnableFullCurrentChargeInCoolTemp)
        } else {
            Err(())
        }
    }
}

impl TryFrom<u8> for ChargerEnableFullCurrentChargeInCoolTempSet {
    type Error = ();

    fn try_from(value: u8) -> (r: Result<Self, Self::Error>) {
        match value {
            0 => Ok(ChargerEnableFullCurrentChargeInCoolTempSet::NoEffect),
            1 => Ok(ChargerEnableFullCurrentChargeInCoolTempSet::EnableFullCurrentChargeInCoolTemp),
            _ => Err(()),
        }
    }
}

impl TryFromSpecImpl<u8> for ChargerEnableFullCurrentChargeInCoolTempSet {
    open spec fn obeys_try_from_spec() -> bool {
        true
    }

    open spec fn try_from_spec(v: u8) -> Result<ChargerEnableFullCurrentChargeInCoolTempSet, ()> {
        ChargerEnableFullCurrentChargeInCoolTempSet::decode(v)
    }
}

impl From<ChargerEnableFullCurrentChargeInCoolTempSet> for u8 {
    fn from(value: ChargerEnableFullCurrentChargeInCoolTempSet) -> (r: u8) {
        match value {
            ChargerEnableFullCurrentChargeInCoolTempSet::NoEffect => 0,
            ChargerEnableFullCurrentChargeInCoolTempSet::EnableFullCurrentChargeInCoolTemp => 1,
        }
    }
}

impl FromSpecImpl<ChargerEnableFullCurrentChargeInCoolTempSet> for u8 {
    open spec fn obeys_from_spec() -> bool {
        true
    }

    open spec fn from_spec(v: ChargerEnableFullCurrentChargeInCoolTempSet) -> u8 {
        v.code()
    }
}

/// Main charger enable control clear (write 1 to clear)
#[derive(Copy, Clone, Debug, PartialEq, Eq, Structural)]
pub enum ChargerEnableClear {
    /// No effect
    NoEffect,
    /// Charger is disabled
    DisableCharger,
}

impl ChargerEnableClear {
    /// The register code of the value.
    pub open spec fn code(self) -> u8 {
        match self {
            ChargerEnableClear::NoEffect => 0,
            ChargerEnableClear::DisableCharger => 1,
        }
    }

    /// The value that the register code `v` stands for, if any.
    pub open spec fn decode(v: u8) -> Result<ChargerEnableClear, ()> {
        if v == 0 {
            Ok(ChargerEnableClear::NoEffect)
        } else if v == 1 {
            Ok(ChargerEnableClear::DisableCharger)
        } else {
            Err(())
        }
    }
}

impl TryFrom<u8> for ChargerEnableClear {
    type Error = ();

    fn try_from(value: u8) -> (r: Result<Self, Self::Error>) {
        match value {
            0 => Ok(ChargerEnableClear::NoEffect),
            1 => Ok(ChargerEnableClear::DisableCharger),
            _ => Err(()),
        }
    }
}

impl TryFromSpecImpl<u8> for ChargerEnableClear {
    open spec fn obeys_try_from_spec() -> bool {
        true
    }

    open spec fn try_from_spec(v: u8) -> Result<ChargerEnableClear, ()> {
        ChargerEnableClear::decode(v)
    }
}

impl From<ChargerEnableClear> for u8 {
    fn from(value: ChargerEnableClear) -> (r: u8) {
        match value {
            ChargerEnableClear::NoEffect => 0,
            ChargerEnableClear::DisableCharger => 1,
        }
    }
}

impl FromSpecImpl<ChargerEnableClear> for u8 {
    open spec fn obeys_from_spec() -> bool {
        true
    }

    open spec fn from_spec(v: ChargerEnableClear) -> u8 {
        v.code()
    }
}

/// Clears full charge current in cool temperature conditions (write 1 to clear)
#[derive(Copy, Clone, Debug, PartialEq, Eq, Structural)]
pub enum ChargerEnableFullCurrentChargeInCoolTempClear {
    /// No effect
    NoEffect,
    /// Charge at reduced current when the battery is cool
    DisableFullCurrentChargeInCoolTemp,
}

impl ChargerEnableFullCurrentChargeInCoolTempClear {
    /// The register code of the value.
    pub open spec fn code(self) -> u8 {
        match self {
            ChargerEnableFullCurrentChargeInCoolTempClear::NoEffect => 0,
            ChargerEnableFullCurrentChargeInCoolTempClear::DisableFullCurrentChargeInCoolTemp => 1,
        }
    }

    /// The value that the register code `v` stands for, if any.
    pub open spec fn decode(v: u8) -> Result<ChargerEnableFullCurrentChargeInCoolTempClear, ()> {
        if v == 0 {
            Ok(ChargerEnableFullCurrentChargeInCoolTempClear::NoEffect)
        } else if v == 1 {
            Ok(ChargerEnableFullCurrentChargeInCoolTempClear::DisableFullCurrentChargeInCoolTemp)
        } else {
            Err(())
        }
    }
}

impl TryFrom<u8> for ChargerEnableFullCurrentChargeInCoolTempClear {
    type Error = ();

    fn try_from(value: u8) -> (r: Result<Self, Self::Error>) {
        match value {
            0 => Ok(ChargerEnableFullCurrentChargeInCoolTempClear::NoEffect),
            1 => Ok(ChargerEnableFullCurrentChargeInCoolTempClear::DisableFullCurrentChargeInCoolTemp),
            _ => Err(()),
        }
    }
}

impl TryFromSpecImpl<u8> for ChargerEnableFullCurrentChargeInCoolTempClear {
    open spec fn obeys_try_from_spec() -> bool {
        true
    }

    open spec fn try_from_spec(v: u8) -> Result<ChargerEnableFullCurrentChargeInCoolTempClear, ()> {
        ChargerEnableFullCurrentChargeInCoolTempClear::decode(v)
    }
}

impl From<ChargerEnableFullCurrentChargeInCoolTempClear> for u8 {
    fn from(value: ChargerEnableFullCurrentChargeInCoolTempClear) -> (r: u8) {
        match value {
            ChargerEnableFullCurrentChargeInCoolTempClear::NoEffect => 0,
            ChargerEnableFullCurrentChargeInCoolTempClear::DisableFullCurrentChargeInCoolTemp => 1,
        }
    }
}

impl FromSpecImpl<ChargerEnableFullCurrentChargeInCoolTempClear> for u8 {
    open spec fn obeys_from_spec() -> bool {
        true
    }

    open spec fn from_spec(v: ChargerEnableFullCurrentChargeInCoolTempClear) -> u8 {
        v.code()
    }
}

/// Battery charger disable recharge set (write 1 to set)
#[derive(Copy, Clone, Debug, PartialEq, Eq, Structural)]
pub enum ChargerDisableRechargeSet {
    /// No effect
    NoEffect,
    /// Do not recharge the battery once charged
    DisableRecharge,
}

impl ChargerDisableRechargeSet {
    /// The register code of the value.
    pub open spec fn code(self) -> u8 {
        match self {
            ChargerDisableRechargeSet::NoEffect => 0,
            ChargerDisableRechargeSet::DisableRecharge => 1,
        }
    }

    /// The value that the register code `v` stands for, if any.
    pub open spec fn decode(v: u8) -> Result<ChargerDisableRechargeSet, ()> {
        if v == 0 {
            Ok(ChargerDisableRechargeSet::NoEffect)
        } else if v == 1 {
            Ok(ChargerDisableRechargeSet::DisableRecharge)
        } else {
            Err(())
        }
    }
}

impl TryFrom<u8> for ChargerDisableRechargeSet {
    type Error = ();

    fn try_from(value: u8) -> (r: Result<Self, Self::Error>) {
        match value {
            0 => Ok(ChargerDisableRechargeSet::NoEffect),
            1 => Ok(ChargerDisableRechargeSet::DisableRecharge),
            _ => Err(()),
        }
    }
}

impl TryFromSpecImpl<u8> for ChargerDisableRechargeSet {
    open spec fn obeys_try_from_spec() -> bool {
        true
    }

    open spec fn try_from_spec(v: u8) -> Result<ChargerDisableRechargeSet, ()> {
        ChargerDisableRechargeSet::decode(v)
    }
}

impl From<ChargerDisableRechargeSet> for u8 {
    fn from(value: ChargerDisableRechargeSet) -> (r: u8) {
        match value {
            ChargerDisableRechargeSet::NoEffect => 0,
            ChargerDisableRechargeSet::DisableRecharge => 1,
        }
    }
}

impl FromSpecImpl<ChargerDisableRechargeSet> for u8 {
    open spec fn obeys_from_spec() -> bool {
        true
    }

    open spec fn from_spec(v: ChargerDisableRechargeSet) -> u8 {
        v.code()
    }
}

/// Battery charger ignores NTC thermistor temperature limits, set (write 1 to set)
#[derive(Copy, Clone, Debug, PartialEq, Eq, Structural)]
pub enum DisableNtcSet {
    /// No effect
    NoEffect,
    /// Charging ignores NTC thermistor temperature limits
    IgnoreNtc,
}

impl DisableNtcSet {
    /// The register code of the value.
    pub open spec fn code(self) -> u8 {
        match self {
            DisableNtcSet::NoEffect => 0,
            DisableNtcSet::IgnoreNtc => 1,
        }
    }

    /// The value that the register code `v` stands for, if any.
    pub open spec fn decode(v: u8) -> Result<DisableNtcSet, ()> {
        if v == 0 {
            Ok(DisableNtcSet::NoEffect)
        } else if v == 1 {
            Ok(DisableNtcSet::IgnoreNtc)
        } else {
            Err(())
        }
    }
}

impl TryFrom<u8> for DisableNtcSet {
    type Error = ();

    fn try_from(value: u8) -> (r: Result<Self, Self::Error>) {
        match value {
            0 => Ok(DisableNtcSet::NoEffect),
            1 => Ok(DisableNtcSet::IgnoreNtc),
            _ => Err(()),
        }
    }
}

impl TryFromSpecImpl<u8> for DisableNtcSet {
    open spec fn obeys_try_from_spec() -> bool {
        true
    }

    open spec fn try_from_spec(v: u8) -> Result<DisableNtcSet, ()> {
        DisableNtcSet::decode(v)
    }
}

impl From<DisableNtcSet> for u8 {
    fn from(value: DisableNtcSet) -> (r: u8) {
        match value {
            DisableNtcSet::NoEffect => 0,
            DisableNtcSet::IgnoreNtc => 1,
        }
    }
}

impl FromSpecImpl<DisableNtcSet> for u8 {
    open spec fn obeys_from_spec() -> bool {
        true
    }

    open spec fn from_spec(v: DisableNtcSet) -> u8 {
        v.code()
    }
}

/// Battery charger disable recharge clear (write 1 to clear)
#[derive(Copy, Clone, Debug, PartialEq, Eq, Structural)]
pub enum ChargerDisableRechargeClear {
    /// No effect
    NoEffect,
    /// Recharge the battery once charged
    EnableRecharge,
}

impl ChargerDisableRechargeClear {
    /// The register code of the value.
    pub open spec fn code(self) -> u8 {
        match self {
            ChargerDisableRechargeClear::NoEffect => 0,
            ChargerDisableRechargeClear::EnableRecharge => 1,
        }
    }

    /// The value that the register code `v` stands for, if any.
    pub open spec fn decode(v: u8) -> Result<ChargerDisableRechargeClear, ()> {
        if v == 0 {
            Ok(ChargerDisableRechargeClear::NoEffect)
        } else if v == 1 {
            Ok(ChargerDisableRechargeClear::EnableRecharge)
        } else {
            Err(())
        }
    }
}

impl TryFrom<u8> for ChargerDisableRechargeClear {
    type Error = ();

    fn try_from(value: u8) -> (r: Result<Self, Self::Error>) {
        match value {
            0 => Ok(ChargerDisableRechargeClear::NoEffect),
            1 => Ok(ChargerDisableRechargeClear::EnableRecharge),
            _ => Err(()),
        }
    }
}

impl TryFromSpecImpl<u8> for ChargerDisableRechargeClear {
    open spec fn obeys_try_from_spec() -> bool {
        true
    }

    open spec fn try_from_spec(v: u8) -> Result<ChargerDisableRechargeClear, ()> {
        ChargerDisableRechargeClear::decode(v)
    }
}

impl From<ChargerDisableRechargeClear> for u8 {
    fn from(value: ChargerDisableRechargeClear) -> (r: u8) {
        match value {
            ChargerDisableRechargeClear::NoEffect => 0,
            ChargerDisableRechargeClear::EnableRecharge => 1,
        }
    }
}

impl FromSpecImpl<ChargerDisableRechargeClear> for u8 {
    open spec fn obeys_from_spec() -> bool {
        true
    }

    open spec fn from_spec(v: ChargerDisableRechargeClear) -> u8 {
        v.code()
    }
}

/// Battery charger ignores NTC thermistor temperature limits, clear (write 1 to clear)
#[derive(Copy, Clone, Debug, PartialEq, Eq, Structural)]
pub enum DisableNtcClear {
    /// No effect
    NoEffect,
    /// Charging uses NTC thermistor temperature limits
    UseNtc,
}

impl DisableNtcClear {
    /// The register code of the value.
    pub open spec fn code(self) -> u8 {
        match self {
            DisableNtcClear::NoEffect => 0,
            DisableNtcClear::UseNtc => 1,
        }
    }

    /// The value that the register code `v` stands for, if any.
    pub open spec fn decode(v: u8) -> Result<DisableNtcClear, ()> {
        if v == 0 {
            Ok(DisableNtcClear::NoEffect)
        } else if v == 1 {
            Ok(DisableNtcClear::UseNtc)
        } else {
            Err(())
        }
    }
}

impl TryFrom<u8> for DisableNtcClear {
    type Error = ();

    fn try_from(value: u8) -> (r: Result<Self, Self::Error>) {
        match value {
            0 => Ok(DisableNtcClear::NoEffect),
            1 => Ok(DisableNtcClear::UseNtc),
            _ => Err(()),
        }
    }
}

impl TryFromSpecImpl<u8> for DisableNtcClear {
    open spec fn obeys_try_from_spec() -> bool {
        true
    }

    open spec fn try_from_spec(v: u8) -> Result<DisableNtcClear, ()> {
        DisableNtcClear::decode(v)
    }
}

impl From<DisableNtcClear> for u8 {
    fn from(value: DisableNtcClear) -> (r: u8) {
        match value {
            DisableNtcClear::NoEffect => 0,
            DisableNtcClear::UseNtc => 1,
        }
    }
}

impl FromSpecImpl<DisableNtcClear> for u8 {
    open spec fn obeys_from_spec() -> bool {
        true
    }

    open spec fn from_spec(v: DisableNtcClear) -> u8 {
        v.code()
    }
}

/// Battery charger termination voltages in normal temperature
///
/// Codes 14 and 15 read back as 3.60 V.
#[derive(Copy, Clone, Debug, PartialEq, Eq, Structural)]
pub enum ChargerTerminationVoltage {
    V3_50,
    V3_55,
    V3_60,
    V3_65,
    V4_00,
    V4_05,
    V4_10,
    V4_15,
    V4_20,
    V4_25,
    V4_30,
    V4_35,
    V4_40,
    V4_45,
}

impl ChargerTerminationVoltage {
    /// The register code of the value.
    pub open spec fn code(self) -> u8 {
        match self {
            ChargerTerminationVoltage::V3_50 => 0,
            ChargerTerminationVoltage::V3_55 => 1,
            ChargerTerminationVoltage::V3_60 => 2,
            ChargerTerminationVoltage::V3_65 => 3,
            ChargerTerminationVoltage::V4_00 => 4,
            ChargerTerminationVoltage::V4_05 => 5,
            ChargerTerminationVoltage::V4_10 => 6,
            ChargerTerminationVoltage::V4_15 => 7,
            ChargerTerminationVoltage::V4_20 => 8,
            ChargerTerminationVoltage::V4_25 => 9,
            ChargerTerminationVoltage::V4_30 => 10,
            ChargerTerminationVoltage::V4_35 => 11,
            ChargerTerminationVoltage::V4_40 => 12,
            ChargerTerminationVoltage::V4_45 => 13,
        }
    }

    /// The value that the register code `v` stands for, if any.
    pub open spec fn decode(v: u8) -> Result<ChargerTerminationVoltage, ()> {
        if v == 0 {
            Ok(ChargerTerminationVoltage::V3_50)
        } else if v == 1 {
            Ok(ChargerTerminationVoltage::V3_55)
        } else if v == 2 {
            Ok(ChargerTerminationVoltage::V3_60)
        } else if v == 3 {
            Ok(ChargerTerminationVoltage::V3_65)
        } else if v == 4 {
            Ok(ChargerTerminationVoltage::V4_00)
        } else if v == 5 {
            Ok(ChargerTerminationVoltage::V4_05)
        } else if v == 6 {
            Ok(ChargerTerminationVoltage::V4_10)
        } else if v == 7 {
            Ok(ChargerTerminationVoltage::V4_15)
        } else if v == 8 {
            Ok(ChargerTerminationVoltage::V4_20)
        } else if v == 9 {
            Ok(ChargerTerminationVoltage::V4_25)
        } else if v == 10 {
            Ok(ChargerTerminationVoltage::V4_30)
        } else if v == 11 {
            Ok(ChargerTerminationVoltage::V4_35)
        } else if v == 12 {
            Ok(ChargerTerminationVoltage::V4_40)
        } else if v == 13 {
            Ok(ChargerTerminationVoltage::V4_45)
        } else if v == 14 {
            Ok(ChargerTerminationVoltage::V3_60)
        } else if v == 15 {
            Ok(ChargerTerminationVoltage::V3_60)
        } else {
            Err(())
        }
    }
}

impl TryFrom<u8> for ChargerTerminationVoltage {
    type Error = ();

    fn try_from(value: u8) -> (r: Result<Self, Self::Error>) {
        match value {
            0 => Ok(ChargerTerminationVoltage::V3_50),
            1 => Ok(ChargerTerminationVoltage::V3_55),
            2 => Ok(ChargerTerminationVoltage::V3_60),
            3 => Ok(ChargerTerminationVoltage::V3_65),
            4 => Ok(ChargerTerminationVoltage::V4_00),
            5 => Ok(ChargerTerminationVoltage::V4_05),
            6 => Ok(ChargerTerminationVoltage::V4_10),
            7 => Ok(ChargerTerminationVoltage::V4_15),
            8 => Ok(ChargerTerminationVoltage::V4_20),
            9 => Ok(ChargerTerminationVoltage::V4_25),
            10 => Ok(ChargerTerminationVoltage::V4_30),
            11 => Ok(ChargerTerminationVoltage::V4_35),
            12 => Ok(ChargerTerminationVoltage::V4_40),
            13 => Ok(ChargerTerminationVoltage::V4_45),
            14 => Ok(ChargerTerminationVoltage::V3_60),
            15 => Ok(ChargerTerminationVoltage::V3_60),
            _ => Err(()),
        }
    }
}

impl TryFromSpecImpl<u8> for ChargerTerminationVoltage {
    open spec fn obeys_try_from_spec() -> bool {
        true
    }

    open spec fn try_from_spec(v: u8) -> Result<ChargerTerminationVoltage, ()> {
        ChargerTerminationVoltage::decode(v)
    }
}

impl From<ChargerTerminationVoltage> for u8 {
    fn from(value: ChargerTerminationVoltage) -> (r: u8) {
        match value {
            ChargerTerminationVoltage::V3_50 => 0,
            ChargerTerminationVoltage::V3_55 => 1,
            ChargerTerminationVoltage::V3_60 => 2,
            ChargerTerminationVoltage::V3_65 => 3,
            ChargerTerminationVoltage::V4_00 => 4,
            ChargerTerminationVoltage::V4_05 => 5,
            ChargerTerminationVoltage::V4_10 => 6,
            ChargerTerminationVoltage::V4_15 => 7,
            ChargerTerminationVoltage::V4_20 => 8,
            ChargerTerminationVoltage::V4_25 => 9,
            ChargerTerminationVoltage::V4_30 => 10,
            ChargerTerminationVoltage::V4_35 => 11,
            ChargerTerminationVoltage::V4_40 => 12,
            ChargerTerminationVoltage::V4_45 => 13,
        }
    }
}

impl FromSpecImpl<ChargerTerminationVoltage> for u8 {
    open spec fn obeys_from_spec() -> bool {
        true
    }

    open spec fn from_spec(v: ChargerTerminationVoltage) -> u8 {
        v.code()
    }
}

/// Battery charger trickle level select
#[derive(Copy, Clone, Debug, PartialEq, Eq, Structural)]
pub enum ChargerTrickleLevelSelect {
    V2_9,
    V2_5,
}

impl ChargerTrickleLevelSelect {
    /// The register code of the value.
    pub open spec fn code(self) -> u8 {
        match self {
            ChargerTrickleLevelSelect::V2_9 => 0,
            ChargerTrickleLevelSelect::V2_5 => 1,
        }
    }

    /// The value that the register code `v` stands for, if any.
    pub open spec fn decode(v: u8) -> Result<ChargerTrickleLevelSelect, ()> {
        if v == 0 {
            Ok(ChargerTrickleLevelSelect::V2_9)
        } else if v == 1 {
            Ok(ChargerTrickleLevelSelect::V2_5)
        } else {
            Err(())
        }
    }
}

impl TryFrom<u8> for ChargerTrickleLevelSelect {
    type Error = ();

    fn try_from(value: u8) -> (r: Result<Self, Self::Error>) {
        match value {
            0 => Ok(ChargerTrickleLevelSelect::V2_9),
            1 => Ok(ChargerTrickleLevelSelect::V2_5),
            _ => Err(()),
        }
    }
}

impl TryFromSpecImpl<u8> for ChargerTrickleLevelSelect {
    open spec fn obeys_try_from_spec() -> bool {
        true
    }

    open spec fn try_from_spec(v: u8) -> Result<ChargerTrickleLevelSelect, ()> {
        ChargerTrickleLevelSelect::decode(v)
    }
}

impl From<ChargerTrickleLevelSelect> for u8 {
    fn from(value: ChargerTrickleLevelSelect) -> (r: u8) {
        match value {
            ChargerTrickleLevelSelect::V2_9 => 0,
            ChargerTrickleLevelSelect::V2_5 => 1,
        }
    }
}

impl FromSpecImpl<ChargerTrickleLevelSelect> for u8 {
    open spec fn obeys_from_spec() -> bool {
        true
    }

    open spec fn from_spec(v: ChargerTrickleLevelSelect) -> u8 {
        v.code()
    }
}

/// Battery charger termination current level select,
/// expressed as a percentage of the charging current
#[derive(Copy, Clone, Debug, PartialEq, Eq, Structural)]
pub enum ChargerTerminationCurrentLevelSelect {
    /// 10% of charging current
    SEL10,
    /// 20% of charging current
    SEL20,
}

impl ChargerTerminationCurrentLevelSelect {
    /// The register code of the value.
    pub open spec fn code(self) -> u8 {
        match self {
            ChargerTerminationCurrentLevelSelect::SEL10 => 0,
            ChargerTerminationCurrentLevelSelect::SEL20 => 1,
        }
    }

    /// The value that the register code `v` stands for, if any.
    pub open spec fn decode(v: u8) -> Result<ChargerTerminationCurrentLevelSelect, ()> {
        if v == 0 {
            Ok(ChargerTerminationCurrentLevelSelect::SEL10)
        } else if v == 1 {
            Ok(ChargerTerminationCurrentLevelSelect::SEL20)
        } else {
            Err(())
        }
    }
}

impl TryFrom<u8> for ChargerTerminationCurrentLevelSelect {
    type Error = ();

    fn try_from(value: u8) -> (r: Result<Self, Self::Error>) {
        match value {
            0 => Ok(ChargerTerminationCurrentLevelSelect::SEL10),
            1 => Ok(ChargerTerminationCurrentLevelSelect::SEL20),
            _ => Err(()),
        }
    }
}

impl TryFromSpecImpl<u8> for ChargerTerminationCurrentLevelSelect {
    open spec fn obeys_try_from_spec() -> bool {
        true
    }

    open spec fn try_from_spec(v: u8) -> Result<ChargerTerminationCurrentLevelSelect, ()> {
        ChargerTerminationCurrentLevelSelect::decode(v)
    }
}

impl From<ChargerTerminationCurrentLevelSelect> for u8 {
    fn from(value: ChargerTerminationCurrentLevelSelect) -> (r: u8) {
        match value {
            ChargerTerminationCurrentLevelSelect::SEL10 => 0,
            ChargerTerminationCurrentLevelSelect::SEL20 => 1,
        }
    }
}

impl FromSpecImpl<ChargerTerminationCurrentLevelSelect> for u8 {
    open spec fn obeys_from_spec() -> bool {
        true
    }

    open spec fn from_spec(v: ChargerTerminationCurrentLevelSelect) -> u8 {
        v.code()
    }
}

/// Whether the battery is charged when it is warm
#[derive(Copy, Clone, Debug, PartialEq, Eq, Structural)]
pub enum ChargerConfigDisableChargeWarm {
    /// Enable charging if battery is warm
    ENABLED,
    /// Disable charging if battery is warm
    DISABLED,
}

impl ChargerConfigDisableChargeWarm {
    /// The register code of the value.
    pub open spec fn code(self) -> u8 {
        match self {
            ChargerConfigDisableChargeWarm::ENABLED => 0,
            ChargerConfigDisableChargeWarm::DISABLED => 1,
        }
    }

    /// The value that the register code `v` stands for, if any.
    pub open spec fn decode(v: u8) -> Result<ChargerConfigDisableChargeWarm, ()> {
        if v == 0 {
            Ok(ChargerConfigDisableChargeWarm::ENABLED)
        } else if v == 1 {
            Ok(ChargerConfigDisableChargeWarm::DISABLED)
        } else {
            Err(())
        }
    }
}

impl TryFrom<u8> for ChargerConfigDisableChargeWarm {
    type Error = ();

    fn try_from(value: u8) -> (r: Result<Self, Self::Error>) {
        match value {
            0 => Ok(ChargerConfigDisableChargeWarm::ENABLED),
            1 => Ok(ChargerConfigDisableChargeWarm::DISABLED),
            _ => Err(()),
        }
    }
}

impl TryFromSpecImpl<u8> for ChargerConfigDisableChargeWarm {
    open spec fn obeys_try_from_spec() -> bool {
        true
    }

    open spec fn try_from_spec(v: u8) -> Result<ChargerConfigDisableChargeWarm, ()> {
        ChargerConfigDisableChargeWarm::decode(v)
    }
}

impl From<ChargerConfigDisableChargeWarm> for u8 {
    fn from(value: ChargerConfigDisableChargeWarm) -> (r: u8) {
        match value {
            ChargerConfigDisableChargeWarm::ENABLED => 0,
            ChargerConfigDisableChargeWarm::DISABLED => 1,
        }
    }
}

impl FromSpecImpl<ChargerConfigDisableChargeWarm> for u8 {
    open spec fn obeys_from_spec() -> bool {
        true
    }

    open spec fn from_spec(v: ChargerConfigDisableChargeWarm) -> u8 {
        v.code()
    }
}

/// Battery current measurement status codes
#[derive(Copy, Clone, Debug, PartialEq, Eq, Structural)]
pub enum IbatStatuscodes {
    /// Battery is discharging
    IbatStatDischarge,
    /// Charger error (seen when no battery is present)
    IbatStatChargeError,
    /// Trickle charging
    IbatStatChargeTrickle,
    /// Charging in cool temperature
    IbatStatChargeCool,
    /// Charging normally
    IbatStatChargeNormal,
}

impl IbatStatuscodes {
    /// The register code of the value.
    pub open spec fn code(self) -> u8 {
        match self {
            IbatStatuscodes::IbatStatDischarge => 4,
            IbatStatuscodes::IbatStatChargeError => 8,
            IbatStatuscodes::IbatStatChargeTrickle => 12,
            IbatStatuscodes::IbatStatChargeCool => 13,
            IbatStatuscodes::IbatStatChargeNormal => 15,
        }
    }

    /// The value that the register code `v` stands for, if any.
    pub open spec fn decode(v: u8) -> Result<IbatStatuscodes, ()> {
        if v == 4 {
            Ok(IbatStatuscodes::IbatStatDischarge)
        } else if v == 8 {
            Ok(IbatStatuscodes::IbatStatChargeError)
        } else if v == 12 {
            Ok(IbatStatuscodes::IbatStatChargeTrickle)
        } else if v == 13 {
            Ok(IbatStatuscodes::IbatStatChargeCool)
        } else if v == 15 {
            Ok(IbatStatuscodes::IbatStatChargeNormal)
        } else {
            Err(())
        }
    }
}

impl TryFrom<u8> for IbatStatuscodes {
    type Error = ();

    fn try_from(value: u8) -> (r: Result<Self, Self::Error>) {
        match value {
            4 => Ok(IbatStatuscodes::IbatStatDischarge),
            8 => Ok(IbatStatuscodes::IbatStatChargeError),
            12 => Ok(IbatStatuscodes::IbatStatChargeTrickle),
            13 => Ok(IbatStatuscodes::IbatStatChargeCool),
            15 => Ok(IbatStatuscodes::IbatStatChargeNormal),
            _ => Err(()),
        }
    }
}

impl TryFromSpecImpl<u8> for IbatStatuscodes {
    open spec fn obeys_try_from_spec() -> bool {
        true
    }

    open spec fn try_from_spec(v: u8) -> Result<IbatStatuscodes, ()> {
        IbatStatuscodes::decode(v)
    }
}

impl From<IbatStatuscodes> for u8 {
    fn from(value: IbatStatuscodes) -> (r: u8) {
        match value {
            IbatStatuscodes::IbatStatDischarge => 4,
            IbatStatuscodes::IbatStatChargeError => 8,
            IbatStatuscodes::IbatStatChargeTrickle => 12,
            IbatStatuscodes::IbatStatChargeCool => 13,
            IbatStatuscodes::IbatStatChargeNormal => 15,
        }
    }
}

impl FromSpecImpl<IbatStatuscodes> for u8 {
    open spec fn obeys_from_spec() -> bool {
        true
    }

    open spec fn from_spec(v: IbatStatuscodes) -> u8 {
        v.code()
    }
}

/// Discharge current limit settings
#[derive(Copy, Clone, Debug, PartialEq, Eq, Structural)]
pub enum DischargeCurrentLimit {
    Low,
    High,
}

/// Temperature threshold regions for NTC measurements
#[derive(Copy, Clone, Debug, PartialEq, Eq, Structural)]
pub enum NtcThresholdRegion {
    /// Cold temperature threshold (lowest)
    Cold,
    /// Cool temperature threshold
    Cool,
    /// Warm temperature threshold
    Warm,
    /// Hot temperature threshold (highest)
    Hot,
}

/// Die temperature threshold regions for temperature monitoring during
/// charging
#[derive(Copy, Clone, Debug, PartialEq, Eq, Structural)]
pub enum DieTemperatureThresholdType {
    /// Stop temperature threshold
    Stop,
    /// Resume temperature threshold
    Resume,
}

/// Charger status flags.
#[derive(Copy, Clone, Debug, PartialEq, Eq, Structural)]
pub struct ChargerStatus {
    /// A battery is connected and detected
    pub is_battery_present: bool,
    /// The battery has reached full charge and charging has stopped
    pub is_charging_complete: bool,
    /// Trickle charging (reduced current for a deeply discharged battery) is active
    pub is_trickle_charging: bool,
    /// Constant-current charging is active
    pub is_constant_current_charging: bool,
    /// Constant-voltage charging is active
    pub is_constant_voltage_charging: bool,
    /// The battery fell below the recharge threshold after a full charge
    pub needs_recharge: bool,
    /// Charging is paused because the die is above its stop temperature
    pub is_charging_paused_by_die_temperature: bool,
    /// The system draws extra current from the battery because the input
    /// current limit is reached
    pub is_supplement_mode_active: bool,
}

/// Latched reasons of a charger error; cleared by the clear-error task.
#[derive(Copy, Clone, Debug, PartialEq, Eq, Structural)]
pub struct ChargerErrorReason {
    pub ntc_sensor_error: bool,
    pub vbat_sensor_error: bool,
    pub vbat_low_error: bool,
    pub vtrickle_error: bool,
    pub measurement_timeout_error: bool,
    pub charge_timeout_error: bool,
    pub trickle_timeout_error: bool,
}

/// Sensor values latched at a charger error; cleared by the clear-error task.
#[derive(Copy, Clone, Debug, PartialEq, Eq, Structural)]
pub struct ChargerSensorValueDuringError {
    pub sensor_ntc_cold: bool,
    pub sensor_ntc_cool: bool,
    pub sensor_ntc_warm: bool,
    pub sensor_ntc_hot: bool,
    pub sensor_vterm: bool,
    pub sensor_recharge: bool,
    pub sensor_vtrickle: bool,
    pub sensor_vbat_low: bool,
}

} // verus!
