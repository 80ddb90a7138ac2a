use npm1300_rs::adc::{
    assemble_sample, auto_vbat_ops, charger_mode, current_microamps, die_temperature, lsb_field,
    voltage_microvolts, Action, ChargerMode, Event, FullScale, Measurement, Reading, Request, Session,
};
use npm1300_rs::registers::RegisterOp;
use npm1300_rs::NPM1300Error;

#[derive(Debug, Clone, Copy, PartialEq, Eq)]
struct BusError(u8);

/// Runs a session, answering writes and waits with success and each read
/// with the next of `reads`; returns the actions in order.
fn drive(request: Request, reads: &[Result<u8, BusError>]) -> Vec<Action<BusError>> {
    let (mut session, mut action) = Session::start::<BusError>(request);
    let mut actions = Vec::new();
    let mut next_read = 0;
    loop {
        let event = match &action {
            Action::Write { .. } => Event::Written,
            Action::Wait { .. } => Event::Waited,
            Action::Read { .. } => {
                let r = reads[next_read];
                next_read += 1;
                match r {
                    Ok(v) => Event::Value(v),
                    Err(e) => Event::Failed(e),
                }
            }
            Action::Finish(_) => {
                actions.push(action);
                return actions;
            }
        };
        actions.push(action);
        let (s, a) = session.step(event);
        session = s;
        action = a;
    }
}

fn finish(actions: &[Action<BusError>]) -> &Result<Reading, NPM1300Error<BusError>> {
    match actions.last() {
        Some(Action::Finish(r)) => r,
        _ => panic!("session did not finish"),
    }
}

#[test]
fn assemble_combines_msb_and_low_bits() {
    assert_eq!(assemble_sample(0, 0), 0);
    assert_eq!(assemble_sample(255, 3), 1023);
    assert_eq!(assemble_sample(0x80, 0b01), 0x201);
    // Only the two lowest bits of the LSB register count.
    assert_eq!(assemble_sample(1, 0xFE), 6);
    for msb in 0..=255u8 {
        for lsb in 0..=3u8 {
            let r = assemble_sample(msb, lsb);
            assert_eq!(r, ((msb as u16) << 2) | lsb as u16);
            assert!(r <= 1023);
        }
    }
}

#[test]
fn lsb_field_picks_channel_bits() {
    let reg: u8 = 0b11_10_01_00;
    assert_eq!(lsb_field(reg, 0), 0);
    assert_eq!(lsb_field(reg, 1), 1);
    assert_eq!(lsb_field(reg, 2), 2);
    assert_eq!(lsb_field(reg, 3), 3);
}

#[test]
fn voltage_formula_end_points_and_order() {
    assert_eq!(voltage_microvolts(0), 0);
    assert_eq!(voltage_microvolts(1023), 5_000_000);
    assert_eq!(voltage_microvolts(512), 2_502_443);
    let mut last = 0;
    for s in 0..=1023u16 {
        let v = voltage_microvolts(s);
        assert!(v >= last);
        last = v;
    }
    // The float rendering agrees within float tolerance.
    let f = (1023u16 as f32 / 1023.0) * 5.0;
    assert!((f - 5.0).abs() < 1e-6);
}

#[test]
fn die_temperature_formula() {
    assert_eq!(die_temperature(0), 3_946_700);
    // 394.67 - 0.7926 * 500 = -1.63 degrees
    assert_eq!(die_temperature(500), -16_300);
    let mut last = die_temperature(0);
    for s in 1..=1023u16 {
        let t = die_temperature(s);
        assert!(t < last);
        last = t;
    }
}

#[test]
fn full_scale_current_per_mode() {
    let discharging = FullScale { mode: ChargerMode::Discharging, code: 100 };
    assert_eq!(discharging.microamps(), 83_600);
    let charging = FullScale { mode: ChargerMode::Charging, code: 200 };
    assert_eq!(charging.microamps(), 250_000);
}

#[test]
fn current_formula() {
    assert_eq!(current_microamps(0, 250_000), 0);
    assert_eq!(current_microamps(1023, 250_000), 250_000);
    assert_eq!(current_microamps(512, 83_600), 41_840);
}

#[test]
fn charger_mode_field() {
    assert_eq!(charger_mode(0x04), Ok(ChargerMode::Discharging));
    assert_eq!(charger_mode(0x0C), Ok(ChargerMode::Charging));
    assert_eq!(charger_mode(0x0D), Ok(ChargerMode::Charging));
    assert_eq!(charger_mode(0x0F), Ok(ChargerMode::Charging));
    assert_eq!(charger_mode(0x08), Err(2));
    assert_eq!(charger_mode(0x00), Err(0));
}

#[test]
fn vbat_session_full_scale_reads_five_volts() {
    let actions = drive(Request::Measure(Measurement::Vbat), &[Ok(0xFF), Ok(0b11)]);
    assert_eq!(
        actions,
        vec![
            Action::Write { address: 0x0500, value: 1 },
            Action::Wait { micros: 250 },
            Action::Read { address: 0x0511 },
            Action::Read { address: 0x0515 },
            Action::Finish(Ok(Reading::Sample(1023))),
        ]
    );
    match finish(&actions) {
        Ok(Reading::Sample(s)) => assert_eq!(voltage_microvolts(*s), 5_000_000),
        other => panic!("unexpected {:?}", other),
    }
}

#[test]
fn failed_lsb_read_returns_transport_error() {
    let actions = drive(
        Request::Measure(Measurement::Vbat),
        &[Ok(0xFF), Err(BusError(7))],
    );
    assert_eq!(actions.len(), 5);
    assert_eq!(finish(&actions), &Err(NPM1300Error::I2c(BusError(7))));
}

#[test]
fn failed_trigger_ends_session() {
    let (session, action) = Session::start::<BusError>(Request::Measure(Measurement::Vsys));
    assert_eq!(action, Action::Write { address: 0x0503, value: 1 });
    let (_, action) = session.step(Event::Failed(BusError(1)));
    assert_eq!(action, Action::Finish(Err(NPM1300Error::I2c(BusError(1)))));
}

#[test]
fn repeated_measurement_gives_same_result() {
    for m in [
        Measurement::Vbat,
        Measurement::Ntc,
        Measurement::DieTemperature,
        Measurement::Vsys,
    ] {
        let first = drive(Request::Measure(m), &[Ok(0x7D), Ok(0b1110_0100)]);
        let second = drive(Request::Measure(m), &[Ok(0x7D), Ok(0b1110_0100)]);
        assert_eq!(first, second);
    }
}

#[test]
fn channels_read_their_own_lsb_field() {
    // The shared register holds 0, 1, 2, 3 in the fields of VBAT, NTC,
    // die temperature and VSYS.
    let lsbs: u8 = 0b11_10_01_00;
    let cases = [
        (Measurement::Vbat, 0x0500, 0x0511, 0),
        (Measurement::Ntc, 0x0501, 0x0512, 1),
        (Measurement::DieTemperature, 0x0502, 0x0513, 2),
        (Measurement::Vsys, 0x0503, 0x0514, 3),
    ];
    for (m, task, msb, low) in cases {
        let actions = drive(Request::Measure(m), &[Ok(10), Ok(lsbs)]);
        assert_eq!(actions[0], Action::Write { address: task, value: 1 });
        assert_eq!(actions[2], Action::Read { address: msb });
        assert_eq!(actions[3], Action::Read { address: 0x0515 });
        assert_eq!(finish(&actions), &Ok(Reading::Sample(40 + low)));
    }
}

#[test]
fn ibat_session_reads_discharge_limit() {
    let actions = drive(
        Request::Measure(Measurement::Ibat),
        &[Ok(0x80), Ok(0b0001_0000), Ok(0x04), Ok(25), Ok(0)],
    );
    assert_eq!(
        actions,
        vec![
            Action::Write { address: 0x0506, value: 1 },
            Action::Wait { micros: 250 },
            Action::Read { address: 0x0518 },
            Action::Read { address: 0x051A },
            Action::Read { address: 0x0510 },
            Action::Read { address: 0x030A },
            Action::Read { address: 0x030B },
            Action::Finish(Ok(Reading::Current {
                sample: 513,
                full_scale: FullScale { mode: ChargerMode::Discharging, code: 100 },
            })),
        ]
    );
    assert_eq!(current_microamps(513, 83_600), 41_922);
}

#[test]
fn full_scale_session_reads_charge_limit() {
    let actions = drive(Request::FullScaleCurrent, &[Ok(0x0F), Ok(50), Ok(0)]);
    assert_eq!(
        actions,
        vec![
            Action::Read { address: 0x0510 },
            Action::Read { address: 0x0308 },
            Action::Read { address: 0x0309 },
            Action::Finish(Ok(Reading::FullScale(FullScale {
                mode: ChargerMode::Charging,
                code: 200
            }))),
        ]
    );
    match finish(&actions) {
        Ok(Reading::FullScale(fs)) => assert_eq!(fs.microamps(), 250_000),
        other => panic!("unexpected {:?}", other),
    }
}

#[test]
fn unexpected_charger_mode_is_an_error() {
    let actions = drive(Request::FullScaleCurrent, &[Ok(0x08)]);
    assert_eq!(actions.len(), 2);
    assert_eq!(finish(&actions), &Err(NPM1300Error::UnexpectedChargerMode(2)));
}

#[test]
fn auto_vbat_switch() {
    assert_eq!(auto_vbat_ops(true), vec![RegisterOp::Write { address: 0x0509, value: 1 }]);
    assert_eq!(auto_vbat_ops(false), vec![RegisterOp::Write { address: 0x0509, value: 0 }]);
}
