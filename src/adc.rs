use vstd::prelude::*;

use crate::registers::{write_op, write_reg, Register, RegisterOp};
use crate::NPM1300Error;

verus! {

/// Time given to the converter between the trigger and the read of its
/// result, in microseconds. The result is not polled.
pub const SETTLE_MICROS: u32 = 250;

/// Largest 10-bit sample.
pub const MAX_SAMPLE: u16 = 1023;

/// Full-scale voltage of the VBAT and VSYS channels, in microvolts.
pub const FULL_SCALE_MICROVOLTS: u64 = 5_000_000;

/// Die temperature at sample 0, in units of 0.0001 degree Celsius.
pub const DIE_TEMPERATURE_OFFSET: i32 = 3_946_700;

/// Die temperature drop per sample step, in units of 0.0001 degree Celsius.
pub const DIE_TEMPERATURE_SLOPE: i32 = 7_926;

/// Full-scale battery current per step of the discharge current limit, in
/// microamps.
pub const DISCHARGE_MICROAMPS_PER_STEP: u32 = 836;

/// Full-scale battery current per step of the charge current limit, in
/// microamps.
pub const CHARGE_MICROAMPS_PER_STEP: u32 = 1250;

/// The 10-bit sample made of an 8-bit MSB and the two low bits of `lsb`.
pub open spec fn sample_of(msb: u8, lsb: u8) -> u16 {
    (msb * 4 + lsb % 4) as u16
}

/// Divisor that brings LSB field `index` of a shared result register down to
/// the two lowest bits.
pub open spec fn field_divisor(index: u8) -> int {
    if index == 0 {
        1
    } else if index == 1 {
        4
    } else if index == 2 {
        16
    } else {
        64
    }
}

/// The two-bit field `index` of a shared result register.
pub open spec fn field_of(register: u8, index: u8) -> u8 {
    ((register as int / field_divisor(index)) % 4) as u8
}

/// Combines an MSB register and the two low bits of an LSB register into a
/// 10-bit sample.
pub fn assemble_sample(msb: u8, lsb: u8) -> (r: u16)
    ensures
        r == ((msb as u16) << 2u16) | ((lsb & 3u8) as u16),
        r == sample_of(msb, lsb),
        r <= MAX_SAMPLE,
{
    let r: u16 = ((msb as u16) << 2u16) | ((lsb & 0x03u8) as u16);
    assert(((msb as u16) << 2u16) | ((lsb & 3u8) as u16) == (msb as u16) * 4 + (lsb % 4) as u16
        && (msb as u16) * 4 + (lsb % 4) as u16 <= 1023) by (bit_vector);
    r
}

/// Extracts the two-bit LSB field `index` from a result register shared by
/// four channels.
pub fn lsb_field(register: u8, index: u8) -> (r: u8)
    requires
        index < 4,
    ensures
        r == field_of(register, index),
        r < 4,
{
    let r: u8 = (register >> (2 * index)) & 0x03u8;
    if index == 0 {
        assert(register >> 0u8 & 3u8 == register % 4) by (bit_vector);
    } else if index == 1 {
        assert(register >> 2u8 & 3u8 == (register / 4) % 4) by (bit_vector);
    } else if index == 2 {
        assert(register >> 4u8 & 3u8 == (register / 16) % 4) by (bit_vector);
    } else {
        assert(register >> 6u8 & 3u8 == (register / 64) % 4) by (bit_vector);
    }
    r
}

/// A quantity that the converter measures on request.
#[derive(Copy, Clone, Debug, PartialEq, Eq, Structural)]
pub enum Measurement {
    Vbat,
    Ntc,
    DieTemperature,
    Vsys,
    Ibat,
}

/// Where one measurement is triggered and read: its task register, its MSB
/// result register, the result register that holds its two low bits, and
/// the index of its field there.
#[derive(Copy, Clone, Debug, PartialEq, Eq, Structural)]
pub struct AdcChannel {
    pub task: Register,
    pub msb: Register,
    pub lsb: Register,
    pub lsb_index: u8,
}

impl Measurement {
    pub open spec fn spec_channel(self) -> AdcChannel {
        match self {
            Measurement::Vbat => AdcChannel {
                task: Register::AdcTaskVbatMeasure,
                msb: Register::AdcVbatResultMsb,
                lsb: Register::AdcGp0ResultLsbs,
                lsb_index: 0,
            },
            Measurement::Ntc => AdcChannel {
                task: Register::AdcTaskNtcMeasure,
                msb: Register::AdcNtcResultMsb,
                lsb: Register::AdcGp0ResultLsbs,
                lsb_index: 1,
            },
            Measurement::DieTemperature => AdcChannel {
                task: Register::AdcTaskTempMeasure,
                msb: Register::AdcTempResultMsb,
                lsb: Register::AdcGp0ResultLsbs,
                lsb_index: 2,
            },
            Measurement::Vsys => AdcChannel {
                task: Register::AdcTaskVsysMeasure,
                msb: Register::AdcVsysResultMsb,
                lsb: Register::AdcGp0ResultLsbs,
                lsb_index: 3,
            },
            Measurement::Ibat => AdcChannel {
                task: Register::AdcTaskIbatMeasure,
                msb: Register::AdcVbatBurstResultMsb(2),
                lsb: Register::AdcGp1ResultLsbs,
                lsb_index: 2,
            },
        }
    }

    /// The registers of the measurement.
    pub fn channel(self) -> (r: AdcChannel)
        ensures
            r == self.spec_channel(),
            r.task.valid() && r.msb.valid() && r.lsb.valid() && r.lsb_index < 4,
    {
        match self {
            Measurement::Vbat => AdcChannel {
                task: Register::AdcTaskVbatMeasure,
                msb: Register::AdcVbatResultMsb,
                lsb: Register::AdcGp0ResultLsbs,
                lsb_index: 0,
            },
            Measurement::Ntc => AdcChannel {
                task: Register::AdcTaskNtcMeasure,
                msb: Register::AdcNtcResultMsb,
                lsb: Register::AdcGp0ResultLsbs,
                lsb_index: 1,
            },
            Measurement::DieTemperature => AdcChannel {
                task: Register::AdcTaskTempMeasure,
                msb: Register::AdcTempResultMsb,
                lsb: Register::AdcGp0ResultLsbs,
                lsb_index: 2,
            },
            Measurement::Vsys => AdcChannel {
                task: Register::AdcTaskVsysMeasure,
                msb: Register::AdcVsysResultMsb,
                lsb: Register::AdcGp0ResultLsbs,
                lsb_index: 3,
            },
            Measurement::Ibat => AdcChannel {
                task: Register::AdcTaskIbatMeasure,
                msb: Register::AdcVbatBurstResultMsb(2),
                lsb: Register::AdcGp1ResultLsbs,
                lsb_index: 2,
            },
        }
    }
}

/// Whether the battery is being discharged or charged, as the converter's
/// battery-current status reports it.
#[derive(Copy, Clone, Debug, PartialEq, Eq, Structural)]
pub enum ChargerMode {
    Discharging,
    Charging,
}

/// The charger-mode field (bits 3..2) of the battery-current status register.
pub open spec fn charger_mode_field(status: u8) -> u8 {
    ((status as int / 4) % 4) as u8
}

/// The charger mode that a status register value reports: field value 1 is
/// discharging, 3 is charging; any other value is returned as the error.
pub open spec fn spec_charger_mode(status: u8) -> Result<ChargerMode, u8> {
    let field = charger_mode_field(status);
    if field == 1 {
        Ok(ChargerMode::Discharging)
    } else if field == 3 {
        Ok(ChargerMode::Charging)
    } else {
        Err(field)
    }
}

/// Reads the charger mode out of the battery-current status register.
pub fn charger_mode(status: u8) -> (r: Result<ChargerMode, u8>)
    ensures
        r == spec_charger_mode(status),
{
    let field = lsb_field(status, 1);
    if field == 1 {
        Ok(ChargerMode::Discharging)
    } else if field == 3 {
        Ok(ChargerMode::Charging)
    } else {
        Err(field)
    }
}

impl ChargerMode {
    /// The MSB and LSB registers of the current limit that sets the full
    /// scale of the battery-current measurement in this mode.
    pub open spec fn spec_limit_registers(self) -> (Register, Register) {
        match self {
            ChargerMode::Discharging => (
                Register::ChargerIsetDischargeMsb,
                Register::ChargerIsetDischargeLsb,
            ),
            ChargerMode::Charging => (Register::ChargerIsetMsb, Register::ChargerIsetLsb),
        }
    }

    pub fn limit_registers(self) -> (r: (Register, Register))
        ensures
            r == self.spec_limit_registers(),
    {
        match self {
            ChargerMode::Discharging => (
                Register::ChargerIsetDischargeMsb,
                Register::ChargerIsetDischargeLsb,
            ),
            ChargerMode::Charging => (Register::ChargerIsetMsb, Register::ChargerIsetLsb),
        }
    }

    /// Full-scale current per step of the mode's current-limit code.
    pub open spec fn microamps_per_step(self) -> u32 {
        match self {
            ChargerMode::Discharging => DISCHARGE_MICROAMPS_PER_STEP,
            ChargerMode::Charging => CHARGE_MICROAMPS_PER_STEP,
        }
    }
}

/// The full scale of the battery-current measurement: the charger mode and
/// the 10-bit current-limit code that was in force in that mode.
#[derive(Copy, Clone, Debug, PartialEq, Eq, Structural)]
pub struct FullScale {
    pub mode: ChargerMode,
    pub code: u16,
}

impl FullScale {
    pub open spec fn wf(self) -> bool {
        self.code <= MAX_SAMPLE
    }

    pub open spec fn spec_microamps(self) -> int {
        self.code * self.mode.microamps_per_step()
    }

    /// The full-scale current in microamps: 0.836 mA per code step when
    /// discharging, 1.25 mA per code step when charging.
    pub fn microamps(&self) -> (r: u32)
        requires
            self.wf(),
        ensures
            r == self.spec_microamps(),
            r <= 1023 * CHARGE_MICROAMPS_PER_STEP,
    {
        match self.mode {
            ChargerMode::Discharging => self.code as u32 * DISCHARGE_MICROAMPS_PER_STEP,
            ChargerMode::Charging => self.code as u32 * CHARGE_MICROAMPS_PER_STEP,
        }
    }
}

/// VBAT or VSYS in microvolts: `sample / 1023 * 5 V`, rounded down.
pub open spec fn spec_voltage_microvolts(sample: int) -> int {
    sample * FULL_SCALE_MICROVOLTS / MAX_SAMPLE as int
}

/// Converts a VBAT or VSYS sample to microvolts: `sample / 1023 * 5 V`,
/// rounded down.
pub fn voltage_microvolts(sample: u16) -> (r: u32)
    requires
        sample <= MAX_SAMPLE,
    ensures
        r == spec_voltage_microvolts(sample as int),
        r <= FULL_SCALE_MICROVOLTS,
{
    let wide: u64 = sample as u64 * FULL_SCALE_MICROVOLTS;
    proof {
        assert(sample * FULL_SCALE_MICROVOLTS <= 1023 * FULL_SCALE_MICROVOLTS) by (nonlinear_arith)
            requires
                sample <= 1023,
        ;
        assert(wide / 1023 <= FULL_SCALE_MICROVOLTS) by (nonlinear_arith)
            requires
                wide <= 1023 * FULL_SCALE_MICROVOLTS,
        ;
    }
    (wide / MAX_SAMPLE as u64) as u32
}

/// The die temperature in units of 0.0001 degree Celsius:
/// `394.67 - 0.7926 * sample`.
pub open spec fn spec_die_temperature(sample: int) -> int {
    DIE_TEMPERATURE_OFFSET - DIE_TEMPERATURE_SLOPE * sample
}

/// Converts a die-temperature sample to units of 0.0001 degree Celsius:
/// `394.67 - 0.7926 * sample`, exactly.
pub fn die_temperature(sample: u16) -> (r: i32)
    requires
        sample <= MAX_SAMPLE,
    ensures
        r == spec_die_temperature(sample as int),
{
    DIE_TEMPERATURE_OFFSET - DIE_TEMPERATURE_SLOPE * (sample as i32)
}

/// The battery current in microamps: `sample / 1023 * full scale`, rounded
/// down.
pub open spec fn spec_current_microamps(sample: int, full_scale_microamps: int) -> int {
    sample * full_scale_microamps / MAX_SAMPLE as int
}

/// Converts an IBAT sample to microamps: `sample / 1023 * full scale`,
/// rounded down.
pub fn current_microamps(sample: u16, full_scale_microamps: u32) -> (r: u32)
    requires
        sample <= MAX_SAMPLE,
    ensures
        r == spec_current_microamps(sample as int, full_scale_microamps as int),
        r <= full_scale_microamps,
{
    proof {
        assert(sample * full_scale_microamps <= 1023 * full_scale_microamps) by (nonlinear_arith)
            requires
                sample <= 1023,
        ;
    }
    let wide: u64 = sample as u64 * full_scale_microamps as u64;
    proof {
        assert(wide / 1023 <= full_scale_microamps) by (nonlinear_arith)
            requires
                wide <= 1023 * full_scale_microamps,
        ;
    }
    (wide / MAX_SAMPLE as u64) as u32
}

/// What the driver is asked for: one triggered measurement, or the full
/// scale of the battery-current measurement alone.
#[derive(Copy, Clone, Debug, PartialEq, Eq, Structural)]
pub enum Request {
    Measure(Measurement),
    FullScaleCurrent,
}

/// What a finished session hands back: a raw sample, a battery-current
/// sample with the full scale it is read against, or a full scale alone.
#[derive(Copy, Clone, Debug, PartialEq, Eq, Structural)]
pub enum Reading {
    Sample(u16),
    Current { sample: u16, full_scale: FullScale },
    FullScale(FullScale),
}

/// Where a session stands. A battery-current session carries its sample
/// through the full-scale lookup; a full-scale session carries none.
#[derive(Copy, Clone, Debug, PartialEq, Eq, Structural)]
pub enum Phase {
    Trigger,
    Settle,
    ReadMsb,
    ReadLsb { msb: u8 },
    ReadChargerMode { sample: Option<u16> },
    ReadLimitMsb { sample: Option<u16>, mode: ChargerMode },
    ReadLimitLsb { sample: Option<u16>, mode: ChargerMode, msb: u8 },
    Done,
}

/// The next thing to do on the bus or the timer, or the end of the session.
#[derive(Debug, PartialEq, Eq)]
pub enum Action<E> {
    Write { address: u16, value: u8 },
    Wait { micros: u32 },
    Read { address: u16 },
    Finish(Result<Reading, NPM1300Error<E>>),
}

/// What came back from the last action.
#[derive(Copy, Clone, Debug, PartialEq, Eq)]
pub enum Event<E> {
    Written,
    Waited,
    Value(u8),
    Failed(E),
}

/// One measurement in progress. It holds nothing from earlier sessions:
/// every request starts from the trigger (or, for the full scale, from the
/// status read) and reads every register afresh.
#[derive(Copy, Clone, Debug, PartialEq, Eq, Structural)]
pub struct Session {
    pub request: Request,
    pub phase: Phase,
}

/// The value written to a task register to start it.
pub const TRIGGER: u8 = 1;

/// The bus action that a session in `phase` asks for.
pub open spec fn phase_action<E>(request: Request, phase: Phase) -> Action<E> {
    match phase {
        Phase::Trigger => match request {
            Request::Measure(m) => Action::Write {
                address: m.spec_channel().task.spec_address() as u16,
                value: TRIGGER,
            },
            Request::FullScaleCurrent => Action::Read {
                address: Register::AdcIbatMeasureStatus.spec_address() as u16,
            },
        },
        Phase::Settle => Action::Wait { micros: SETTLE_MICROS },
        Phase::ReadMsb => match request {
            Request::Measure(m) => Action::Read {
                address: m.spec_channel().msb.spec_address() as u16,
            },
            Request::FullScaleCurrent => Action::Read {
                address: Register::AdcIbatMeasureStatus.spec_address() as u16,
            },
        },
        Phase::ReadLsb { .. } => match request {
            Request::Measure(m) => Action::Read {
                address: m.spec_channel().lsb.spec_address() as u16,
            },
            Request::FullScaleCurrent => Action::Read {
                address: Register::AdcIbatMeasureStatus.spec_address() as u16,
            },
        },
        Phase::ReadChargerMode { .. } => Action::Read {
            address: Register::AdcIbatMeasureStatus.spec_address() as u16,
        },
        Phase::ReadLimitMsb { mode, .. } => Action::Read {
            address: mode.spec_limit_registers().0.spec_address() as u16,
        },
        Phase::ReadLimitLsb { mode, .. } => Action::Read {
            address: mode.spec_limit_registers().1.spec_address() as u16,
        },
        Phase::Done => Action::Wait { micros: 0 },
    }
}

/// The phase a request starts in.
pub open spec fn first_phase(request: Request) -> Phase {
    match request {
        Request::Measure(_) => Phase::Trigger,
        Request::FullScaleCurrent => Phase::ReadChargerMode { sample: None },
    }
}

/// The session and the action that follow `event` in `session`: either the
/// next phase with its bus action, or `Done` with the result.
pub open spec fn spec_step<E>(session: Session, event: Event<E>) -> (Session, Action<E>) {
    let request = session.request;
    let done = Session { request, phase: Phase::Done };
    let next = |phase: Phase| (Session { request, phase }, phase_action::<E>(request, phase));
    match event {
        Event::Failed(e) => (done, Action::Finish(Err(NPM1300Error::I2c(e)))),
        Event::Written => next(Phase::Settle),
        Event::Waited => next(Phase::ReadMsb),
        Event::Value(v) => match session.phase {
            Phase::ReadMsb => next(Phase::ReadLsb { msb: v }),
            Phase::ReadLsb { msb } => match request {
                Request::Measure(m) => {
                    let sample = sample_of(msb, field_of(v, m.spec_channel().lsb_index));
                    if m == Measurement::Ibat {
                        next(Phase::ReadChargerMode { sample: Some(sample) })
                    } else {
                        (done, Action::Finish(Ok(Reading::Sample(sample))))
                    }
                },
                Request::FullScaleCurrent => (done, Action::Finish(Ok(Reading::Sample(0)))),
            },
            Phase::ReadChargerMode { sample } => match spec_charger_mode(v) {
                Ok(mode) => next(Phase::ReadLimitMsb { sample, mode }),
                Err(field) => (
                    done,
                    Action::Finish(Err(NPM1300Error::UnexpectedChargerMode(field))),
                ),
            },
            Phase::ReadLimitMsb { sample, mode } => next(
                Phase::ReadLimitLsb { sample, mode, msb: v },
            ),
            Phase::ReadLimitLsb { sample, mode, msb } => {
                let full_scale = FullScale { mode, code: sample_of(msb, v) };
                match sample {
                    Some(s) => (
                        done,
                        Action::Finish(Ok(Reading::Current { sample: s, full_scale })),
                    ),
                    None => (done, Action::Finish(Ok(Reading::FullScale(full_scale)))),
                }
            },
            _ => (done, Action::Finish(Ok(Reading::Sample(0)))),
        },
    }
}

impl Session {
    /// The events that the session's pending action can produce: a write
    /// succeeds or fails, a wait ends, a read returns a value or fails.
    pub open spec fn accepts<E>(self, event: Event<E>) -> bool {
        match self.phase {
            Phase::Done => false,
            Phase::Trigger => match self.request {
                Request::Measure(_) => event is Written || event is Failed,
                Request::FullScaleCurrent => false,
            },
            Phase::Settle => event is Waited,
            _ => event is Value || event is Failed,
        }
    }

    /// Sessions that a start and a run of steps can reach.
    pub open spec fn wf(self) -> bool {
        match self.phase {
            Phase::Trigger | Phase::Settle | Phase::ReadMsb | Phase::ReadLsb { .. } => self.request is Measure,
            Phase::ReadChargerMode { sample } | Phase::ReadLimitMsb { sample, .. } | Phase::ReadLimitLsb { sample, .. } => {
                &&& sample is Some <==> self.request == Request::Measure(Measurement::Ibat)
                &&& sample is Some ==> sample->0 <= MAX_SAMPLE
            },
            Phase::Done => true,
        }
    }

    /// Starts a session for `request` and returns its first action.
    pub fn start<E>(request: Request) -> (r: (Session, Action<E>))
        ensures
            r.0 == (Session { request, phase: first_phase(request) }),
            r.1 == phase_action::<E>(request, first_phase(request)),
            r.0.wf(),
    {
        let session = match request {
            Request::Measure(_) => Session { request, phase: Phase::Trigger },
            Request::FullScaleCurrent => Session {
                request,
                phase: Phase::ReadChargerMode { sample: None },
            },
        };
        let action = session.action();
        (session, action)
    }

    /// The bus action of the session's current phase.
    fn action<E>(&self) -> (r: Action<E>)
        requires
            self.wf(),
            self.phase != Phase::Done,
        ensures
            r == phase_action::<E>(self.request, self.phase),
    {
        match self.phase {
            Phase::Trigger => match self.request {
                Request::Measure(m) => Action::Write { address: m.channel().task.address(), value: TRIGGER },
                Request::FullScaleCurrent => Action::Read { address: Register::AdcIbatMeasureStatus.address() },
            },
            Phase::Settle => Action::Wait { micros: SETTLE_MICROS },
            Phase::ReadMsb => match self.request {
                Request::Measure(m) => Action::Read { address: m.channel().msb.address() },
                Request::FullScaleCurrent => Action::Read { address: Register::AdcIbatMeasureStatus.address() },
            },
            Phase::ReadLsb { .. } => match self.request {
                Request::Measure(m) => Action::Read { address: m.channel().lsb.address() },
                Request::FullScaleCurrent => Action::Read { address: Register::AdcIbatMeasureStatus.address() },
            },
            Phase::ReadChargerMode { .. } => Action::Read {
                address: Register::AdcIbatMeasureStatus.address(),
            },
            Phase::ReadLimitMsb { mode, .. } => Action::Read {
                address: mode.limit_registers().0.address(),
            },
            Phase::ReadLimitLsb { mode, .. } => Action::Read {
                address: mode.limit_registers().1.address(),
            },
            Phase::Done => Action::Wait { micros: 0 },
        }
    }

    /// Advances the session by the outcome of its last action. A transport
    /// failure at any point ends the session with that error; the last read
    /// ends it with the reading.
    pub fn step<E>(self, event: Event<E>) -> (r: (Session, Action<E>))
        requires
            self.wf(),
            self.accepts(event),
        ensures
            r == spec_step(self, event),
            r.0.wf(),
            r.0.request == self.request,
            event is Failed ==> r.0.phase == Phase::Done && r.1 == Action::<E>::Finish(
                Err(NPM1300Error::I2c(event->Failed_0)),
            ),
            r.1 is Finish <==> r.0.phase == Phase::Done,
    {
        let request = self.request;
        let done = Session { request, phase: Phase::Done };
        let phase = match event {
            Event::Failed(e) => {
                return (done, Action::Finish(Err(NPM1300Error::I2c(e))));
            },
            Event::Written => Phase::Settle,
            Event::Waited => Phase::ReadMsb,
            Event::Value(v) => match self.phase {
                Phase::ReadMsb => Phase::ReadLsb { msb: v },
                Phase::ReadLsb { msb } => match request {
                    Request::Measure(m) => {
                        let sample = assemble_sample(msb, lsb_field(v, m.channel().lsb_index));
                        if let Measurement::Ibat = m {
                            Phase::ReadChargerMode { sample: Some(sample) }
                        } else {
                            return (done, Action::Finish(Ok(Reading::Sample(sample))));
                        }
                    },
                    Request::FullScaleCurrent => {
                        return (done, Action::Finish(Ok(Reading::Sample(0))));
                    },
                },
                Phase::ReadChargerMode { sample } => match charger_mode(v) {
                    Ok(mode) => Phase::ReadLimitMsb { sample, mode },
                    Err(field) => {
                        return (done, Action::Finish(Err(NPM1300Error::UnexpectedChargerMode(field))));
                    },
                },
                Phase::ReadLimitMsb { sample, mode } => Phase::ReadLimitLsb { sample, mode, msb: v },
                Phase::ReadLimitLsb { sample, mode, msb } => {
                    let full_scale = FullScale { mode, code: assemble_sample(msb, v) };
                    let reading = match sample {
                        Some(s) => Reading::Current { sample: s, full_scale },
                        None => Reading::FullScale(full_scale),
                    };
                    return (done, Action::Finish(Ok(reading)));
                },
                _ => {
                    return (done, Action::Finish(Ok(Reading::Sample(0))));
                },
            },
        };
        let next = Session { request, phase };
        let action = next.action();
        (next, action)
    }
}

/// The value that a register file holds for `register`.
pub open spec fn register_value(registers: spec_fn(u16) -> u8, register: Register) -> u8 {
    registers(register.spec_address() as u16)
}

/// The event with which a bus that never fails, over a register file,
/// answers an action.
pub open spec fn respond<E>(action: Action<E>, registers: spec_fn(u16) -> u8) -> Event<E> {
    match action {
        Action::Write { .. } => Event::Written,
        Action::Wait { .. } => Event::Waited,
        Action::Read { address } => Event::Value(registers(address)),
        Action::Finish(_) => Event::Waited,
    }
}

/// The action that a session reaches after at most `fuel` steps on a bus
/// that never fails, over a register file.
pub open spec fn run<E>(
    session: Session,
    action: Action<E>,
    registers: spec_fn(u16) -> u8,
    fuel: nat,
) -> Action<E>
    decreases fuel,
{
    if fuel == 0 || action is Finish {
        action
    } else {
        let (next, next_action) = spec_step(session, respond(action, registers));
        run(next, next_action, registers, (fuel - 1) as nat)
    }
}

/// A fresh session for `request`, run on a bus that never fails.
pub open spec fn run_request<E>(request: Request, registers: spec_fn(u16) -> u8) -> Action<E> {
    run(
        Session { request, phase: first_phase(request) },
        phase_action::<E>(request, first_phase(request)),
        registers,
        8,
    )
}

/// The sample of measurement `m` that a register file holds.
pub open spec fn expected_sample(m: Measurement, registers: spec_fn(u16) -> u8) -> u16 {
    let channel = m.spec_channel();
    sample_of(
        register_value(registers, channel.msb),
        field_of(register_value(registers, channel.lsb), channel.lsb_index),
    )
}

/// The full scale of the battery-current measurement that a register file
/// holds: the charger mode from the status register, then the current limit
/// of that mode.
pub open spec fn expected_full_scale<E>(registers: spec_fn(u16) -> u8) -> Result<FullScale, NPM1300Error<E>> {
    match spec_charger_mode(register_value(registers, Register::AdcIbatMeasureStatus)) {
        Ok(mode) => Ok(
            FullScale {
                mode,
                code: sample_of(
                    register_value(registers, mode.spec_limit_registers().0),
                    register_value(registers, mode.spec_limit_registers().1),
                ),
            },
        ),
        Err(field) => Err(NPM1300Error::UnexpectedChargerMode(field)),
    }
}

/// The reading that a request yields from a register file.
pub open spec fn expected_reading<E>(request: Request, registers: spec_fn(u16) -> u8) -> Result<Reading, NPM1300Error<E>> {
    match request {
        Request::Measure(m) => if m == Measurement::Ibat {
            match expected_full_scale::<E>(registers) {
                Ok(full_scale) => Ok(
                    Reading::Current { sample: expected_sample(m, registers), full_scale },
                ),
                Err(e) => Err(e),
            }
        } else {
            Ok(Reading::Sample(expected_sample(m, registers)))
        },
        Request::FullScaleCurrent => match expected_full_scale::<E>(registers) {
            Ok(full_scale) => Ok(Reading::FullScale(full_scale)),
            Err(e) => Err(e),
        },
    }
}

/// Two register files agree on every register that a session for `request`
/// may read.
pub open spec fn agree_on_reads(request: Request, a: spec_fn(u16) -> u8, b: spec_fn(u16) -> u8) -> bool {
    let same = |r: Register| register_value(a, r) == register_value(b, r);
    let full_scale_same = {
        &&& same(Register::AdcIbatMeasureStatus)
        &&& same(Register::ChargerIsetMsb)
        &&& same(Register::ChargerIsetLsb)
        &&& same(Register::ChargerIsetDischargeMsb)
        &&& same(Register::ChargerIsetDischargeLsb)
    };
    match request {
        Request::Measure(m) => {
            &&& same(m.spec_channel().msb)
            &&& same(m.spec_channel().lsb)
            &&& m == Measurement::Ibat ==> full_scale_same
        },
        Request::FullScaleCurrent => full_scale_same,
    }
}

/// On a bus that never fails, a session triggers the measurement, waits the
/// settle time, reads the MSB and then the shared LSB register (and, for
/// battery current, the charger mode and its current limit), and finishes
/// within eight actions with the reading that the registers hold.
pub proof fn lemma_session_reads_registers<E>(request: Request, registers: spec_fn(u16) -> u8)
    ensures
        run_request::<E>(request, registers) == Action::<E>::Finish(
            expected_reading::<E>(request, registers),
        ),
{
    let r = registers;
    let s0 = Session { request, phase: first_phase(request) };
    let a0 = phase_action::<E>(request, first_phase(request));
    let mode_value = register_value(r, Register::AdcIbatMeasureStatus);
    match request {
        Request::Measure(m) => {
            let (s1, a1) = spec_step(s0, respond(a0, r));
            assert(run(s0, a0, r, 8) == run(s1, a1, r, 7));
            let (s2, a2) = spec_step(s1, respond(a1, r));
            assert(run(s1, a1, r, 7) == run(s2, a2, r, 6));
            let (s3, a3) = spec_step(s2, respond(a2, r));
            assert(run(s2, a2, r, 6) == run(s3, a3, r, 5));
            let (s4, a4) = spec_step(s3, respond(a3, r));
            assert(run(s3, a3, r, 5) == run(s4, a4, r, 4));
            if m == Measurement::Ibat {
                let (s5, a5) = spec_step(s4, respond(a4, r));
                assert(run(s4, a4, r, 4) == run(s5, a5, r, 3));
                if spec_charger_mode(mode_value) is Ok {
                    let (s6, a6) = spec_step(s5, respond(a5, r));
                    assert(run(s5, a5, r, 3) == run(s6, a6, r, 2));
                    let (s7, a7) = spec_step(s6, respond(a6, r));
                    assert(run(s6, a6, r, 2) == run(s7, a7, r, 1));
                    assert(run(s7, a7, r, 1) == a7);
                } else {
                    assert(run(s5, a5, r, 3) == a5);
                }
            } else {
                assert(run(s4, a4, r, 4) == a4);
            }
        },
        Request::FullScaleCurrent => {
            let (s1, a1) = spec_step(s0, respond(a0, r));
            assert(run(s0, a0, r, 8) == run(s1, a1, r, 7));
            if spec_charger_mode(mode_value) is Ok {
                let (s2, a2) = spec_step(s1, respond(a1, r));
                assert(run(s1, a1, r, 7) == run(s2, a2, r, 6));
                let (s3, a3) = spec_step(s2, respond(a2, r));
                assert(run(s2, a2, r, 6) == run(s3, a3, r, 5));
                assert(run(s3, a3, r, 5) == a3);
            } else {
                assert(run(s1, a1, r, 7) == a1);
            }
        },
    }
}

/// A measurement is a function of the registers it reads: repeated on
/// register files that agree on those registers, it finishes with the same
/// result.
pub proof fn lemma_repeated_session_same_reading<E>(
    request: Request,
    first: spec_fn(u16) -> u8,
    second: spec_fn(u16) -> u8,
)
    requires
        agree_on_reads(request, first, second),
    ensures
        run_request::<E>(request, first) == run_request::<E>(request, second),
{
    lemma_session_reads_registers::<E>(request, first);
    lemma_session_reads_registers::<E>(request, second);
}

/// The VBAT/VSYS conversion is 0 at sample 0, the full scale at sample 1023,
/// and never decreases as the sample grows.
pub proof fn lemma_voltage_monotonic(a: int, b: int)
    requires
        0 <= a <= b,
    ensures
        spec_voltage_microvolts(0) == 0,
        spec_voltage_microvolts(1023) == FULL_SCALE_MICROVOLTS,
        spec_voltage_microvolts(a) <= spec_voltage_microvolts(b),
{
    assert(a * 5_000_000 <= b * 5_000_000) by (nonlinear_arith)
        requires
            a <= b,
    ;
    vstd::arithmetic::div_mod::lemma_div_is_ordered(a * 5_000_000, b * 5_000_000, 1023);
}

/// The die-temperature conversion falls strictly as the sample grows.
pub proof fn lemma_die_temperature_strictly_decreasing(a: int, b: int)
    requires
        a < b,
    ensures
        spec_die_temperature(a) > spec_die_temperature(b),
{
}

/// Switches automatic VBAT sampling (once a second, by the hardware) on, or
/// back to single measurements on request.
pub fn auto_vbat_ops(enable: bool) -> (r: Vec<RegisterOp>)
    ensures
        r@ == seq![write_op(Register::AdcConfig, if enable { 1 } else { 0 })],
{
    let mut ops: Vec<RegisterOp> = Vec::new();
    ops.push(write_reg(Register::AdcConfig, if enable { 1 } else { 0 }));
    ops
}

} // verus!
