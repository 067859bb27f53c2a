use bmp180::calibration::BMP180CalibrationCoefficients;
use bmp180::compensation::{
    calculate_real_pressure, calculate_true_temperature, compensate, BMP180RawReading,
};
use bmp180::error::{Error, ReadingError};
use bmp180::mode::BMP180PressureMode;
use bmp180::sensor::BMP180BarometerThermometer;
use bmp180::sequencer::{pressure_command_of, raw_pressure_of, AcquisitionState, BusAction, BusEvent};

const MODES: [BMP180PressureMode; 4] = [
    BMP180PressureMode::BMP180UltraLowPower,
    BMP180PressureMode::BMP180Standard,
    BMP180PressureMode::BMP180HighResolution,
    BMP180PressureMode::BMP180UltraHighResolution,
];

fn datasheet_coefficients() -> BMP180CalibrationCoefficients {
    BMP180CalibrationCoefficients {
        ac1: 408,
        ac2: -72,
        ac3: -14383,
        ac4: 32741,
        ac5: 32757,
        ac6: 23153,
        b1: 6190,
        b2: 4,
        mb: -32768,
        mc: -8711,
        md: 2868,
    }
}

fn datasheet_block() -> Vec<u8> {
    let c = datasheet_coefficients();
    let mut block = Vec::new();
    for v in [c.ac1, c.ac2, c.ac3] {
        block.extend_from_slice(&v.to_be_bytes());
    }
    for v in [c.ac4, c.ac5, c.ac6] {
        block.extend_from_slice(&v.to_be_bytes());
    }
    for v in [c.b1, c.b2, c.mb, c.mc, c.md] {
        block.extend_from_slice(&v.to_be_bytes());
    }
    block
}

#[test]
fn mode_table_values() {
    let expected = [(0u8, 5u8), (1, 8), (2, 14), (3, 26)];
    for (mode, (shift, delay)) in MODES.iter().zip(expected) {
        assert_eq!(mode.get_mode_value(), shift);
        assert_eq!(mode.mode_delay(), delay);
    }
}

#[test]
fn calibration_block_decodes_in_order() {
    let block = datasheet_block();
    assert_eq!(block.len(), 22);
    let c = BMP180CalibrationCoefficients::new(&block).unwrap();
    assert_eq!(c, datasheet_coefficients());
}

#[test]
fn calibration_block_signedness() {
    let mut block = vec![0xFFu8; 22];
    block[6] = 0x80;
    block[7] = 0x01;
    let c = BMP180CalibrationCoefficients::new(&block).unwrap();
    assert_eq!(c.ac1, -1);
    assert_eq!(c.ac4, 0x8001);
    assert_eq!(c.ac5, 0xFFFF);
    assert_eq!(c.md, -1);
}

#[test]
fn calibration_block_wrong_length() {
    assert!(BMP180CalibrationCoefficients::new(&[0u8; 21]).is_none());
    assert!(BMP180CalibrationCoefficients::new(&[0u8; 23]).is_none());
    assert!(BMP180CalibrationCoefficients::new(&[]).is_none());
}

#[test]
fn datasheet_example_b5() {
    assert_eq!(datasheet_coefficients().calculate_b5(27898), Some(2399));
}

#[test]
fn datasheet_example_compensation() {
    let raw = BMP180RawReading { padc: 23843, tadc: 27898 };
    let s = compensate(raw, datasheet_coefficients(), BMP180PressureMode::BMP180UltraLowPower).unwrap();
    assert_eq!(s.b5, 2399);
    assert_eq!(s.temperature, 150);
    let celsius = s.temperature as f32 / 10.0;
    assert!((celsius - 15.0).abs() < 0.01);
    assert_eq!(s.pressure, 69964);
    assert!((s.pressure as f32 - 69964.0).abs() < 0.01);
}

#[test]
fn datasheet_example_real_pressure() {
    let p = calculate_real_pressure(23843, 2399, datasheet_coefficients(), BMP180PressureMode::BMP180UltraLowPower);
    assert_eq!(p, Some(69964));
}

#[test]
fn true_temperature_rounds() {
    assert_eq!(calculate_true_temperature(2399), 150);
    assert_eq!(calculate_true_temperature(0), 0);
    assert_eq!(calculate_true_temperature(-100), -6);
    assert_eq!(calculate_true_temperature(i32::MAX), ((i32::MAX as i64 + 8) >> 4) as i32);
}

#[test]
fn b5_zero_divisor() {
    let mut c = datasheet_coefficients();
    c.md = 0;
    assert_eq!(c.calculate_b5(c.ac6 as i16), None);
    let raw = BMP180RawReading { padc: 23843, tadc: c.ac6 as i16 };
    assert_eq!(compensate(raw, c, BMP180PressureMode::BMP180Standard), Err(ReadingError::DivisionByZero));
}

#[test]
fn b4_zero_divisor() {
    let mut c = datasheet_coefficients();
    c.ac4 = 0;
    assert_eq!(calculate_real_pressure(23843, 2399, c, BMP180PressureMode::BMP180UltraLowPower), None);
    let raw = BMP180RawReading { padc: 23843, tadc: 27898 };
    assert_eq!(compensate(raw, c, BMP180PressureMode::BMP180UltraLowPower), Err(ReadingError::DivisionByZero));
}

#[test]
fn extreme_inputs_do_not_overflow() {
    let c = BMP180CalibrationCoefficients {
        ac1: i16::MIN,
        ac2: i16::MIN,
        ac3: i16::MAX,
        ac4: u16::MAX,
        ac5: u16::MAX,
        ac6: u16::MAX,
        b1: i16::MIN,
        b2: i16::MAX,
        mb: 0,
        mc: i16::MIN,
        md: i16::MAX,
    };
    for mode in MODES {
        let _ = c.calculate_b5(i16::MIN);
        let _ = calculate_real_pressure(i32::MAX, i32::MIN, c, mode);
        let _ = calculate_real_pressure(i32::MIN, i32::MAX, c, mode);
        let _ = compensate(BMP180RawReading { padc: i32::MIN, tadc: i16::MAX }, c, mode);
    }
}

#[test]
fn pressure_commands() {
    let expected = [0x34u8, 0x74, 0xB4, 0xF4];
    for (mode, cmd) in MODES.iter().zip(expected) {
        assert_eq!(pressure_command_of(*mode), cmd);
    }
}

#[test]
fn raw_pressure_shift() {
    assert_eq!(raw_pressure_of(0x5D, 0x23, 0x00, BMP180PressureMode::BMP180UltraLowPower), 23843);
    assert_eq!(raw_pressure_of(0x5D, 0x23, 0x00, BMP180PressureMode::BMP180Standard), 0x5D2300 >> 7);
    assert_eq!(raw_pressure_of(0xFF, 0xFF, 0xFF, BMP180PressureMode::BMP180UltraHighResolution), 0xFFFFFF >> 5);
}

fn run_cycle(
    state: AcquisitionState,
    mode: BMP180PressureMode,
    t: Vec<u8>,
    p: Vec<u8>,
) -> Vec<(AcquisitionState, BusAction<u8>)> {
    let events = vec![
        BusEvent::Start,
        BusEvent::Written,
        BusEvent::Slept,
        BusEvent::Received(t),
        BusEvent::Written,
        BusEvent::Slept,
        BusEvent::Received(p),
    ];
    let mut out = Vec::new();
    let mut s = state;
    for e in events {
        let (next, action) = s.step(mode, e);
        s = next;
        out.push((next, action));
    }
    out
}

#[test]
fn sequencer_full_cycle() {
    let mode = BMP180PressureMode::BMP180HighResolution;
    let out = run_cycle(AcquisitionState::Idle, mode, vec![0x6C, 0xFA], vec![0x5D, 0x23, 0x40]);
    let actions: Vec<&BusAction<u8>> = out.iter().map(|(_, a)| a).collect();
    assert_eq!(*actions[0], BusAction::Write { register: 0xF4, value: 0x2E });
    assert_eq!(*actions[1], BusAction::Sleep { ms: 5 });
    assert_eq!(*actions[2], BusAction::WriteRead { register: 0xF6, len: 2 });
    assert_eq!(*actions[3], BusAction::Write { register: 0xF4, value: 0xB4 });
    assert_eq!(*actions[4], BusAction::Sleep { ms: 14 });
    assert_eq!(*actions[5], BusAction::WriteRead { register: 0xF6, len: 3 });
    assert_eq!(*actions[6], BusAction::Complete(BMP180RawReading { padc: 0x5D2340 >> 6, tadc: 27898 }));
    assert_eq!(out[6].0, AcquisitionState::Idle);
    assert_eq!(out[3].0, AcquisitionState::TriggeringPressure { tadc: 27898 });
}

#[test]
fn sequencer_failure_aborts() {
    let (s, a) = AcquisitionState::WaitingPressure { tadc: 5 }.step(BMP180PressureMode::BMP180Standard, BusEvent::Failed(7u8));
    assert_eq!(s, AcquisitionState::Idle);
    assert_eq!(a, BusAction::Abort(Error::I2C(7)));
}

#[test]
fn sequencer_busy_and_unexpected() {
    let mode = BMP180PressureMode::BMP180Standard;
    let (s, a) = AcquisitionState::ReadingTemperature.step(mode, BusEvent::<u8>::Start);
    assert_eq!(s, AcquisitionState::Idle);
    assert_eq!(a, BusAction::Abort(Error::Busy));
    let (s, a) = AcquisitionState::ReadingTemperature.step(mode, BusEvent::<u8>::Received(vec![1, 2, 3]));
    assert_eq!(s, AcquisitionState::Idle);
    assert_eq!(a, BusAction::Abort(Error::InvalidInputData));
    let (s, a) = AcquisitionState::Idle.step(mode, BusEvent::<u8>::Slept);
    assert_eq!(s, AcquisitionState::Idle);
    assert_eq!(a, BusAction::Abort(Error::InvalidInputData));
    let (_, a) = AcquisitionState::ReadingPressure { tadc: 1 }.step(mode, BusEvent::<u8>::Received(vec![1, 2]));
    assert_eq!(a, BusAction::Abort(Error::InvalidInputData));
}

#[test]
fn handle_rejects_failed_calibration_read() {
    let r = BMP180BarometerThermometer::new((), Err::<Vec<u8>, u8>(3), BMP180PressureMode::BMP180Standard);
    assert!(matches!(r, Err(Error::I2C(3))));
    let r = BMP180BarometerThermometer::new((), Ok::<Vec<u8>, u8>(vec![0; 10]), BMP180PressureMode::BMP180Standard);
    assert!(matches!(r, Err(Error::InvalidInputData)));
}

#[test]
fn handle_reports_no_reading_before_acquisition() {
    let h = BMP180BarometerThermometer::new((), Ok::<Vec<u8>, u8>(datasheet_block()), BMP180PressureMode::BMP180UltraLowPower)
        .unwrap();
    assert_eq!(h.pressure_pa(), Err(ReadingError::NoReading));
    assert_eq!(h.temperature_tenths(), Err(ReadingError::NoReading));
    assert_eq!(h.last_reading, None);
    assert_eq!(h.coeff, datasheet_coefficients());
}

#[test]
fn handle_acquisition_end_to_end() {
    let mut h = BMP180BarometerThermometer::new((), Ok::<Vec<u8>, u8>(datasheet_block()), BMP180PressureMode::BMP180UltraLowPower)
        .unwrap();
    let events = vec![
        BusEvent::Start,
        BusEvent::Written,
        BusEvent::Slept,
        BusEvent::Received(vec![0x6C, 0xFA]),
        BusEvent::Written,
        BusEvent::Slept,
    ];
    for e in events {
        let a = h.advance::<u8>(e);
        assert!(!matches!(a, BusAction::Complete(_) | BusAction::Abort(_)));
        assert_eq!(h.last_reading, None);
    }
    let a = h.advance::<u8>(BusEvent::Received(vec![0x5D, 0x23, 0x00]));
    let raw = BMP180RawReading { padc: 23843, tadc: 27898 };
    assert_eq!(a, BusAction::Complete(raw));
    assert_eq!(h.last_reading, Some(raw));
    assert_eq!(h.pressure_pa(), Ok(69964));
    assert_eq!(h.temperature_tenths(), Ok(150));
    // a failed cycle keeps the last completed reading
    let _ = h.advance::<u8>(BusEvent::Start);
    let a = h.advance::<u8>(BusEvent::Failed(9));
    assert_eq!(a, BusAction::Abort(Error::I2C(9)));
    assert_eq!(h.last_reading, Some(raw));
    assert_eq!(h.acquisition, AcquisitionState::Idle);
}

#[test]
fn handle_temperature_without_pressure_divisor() {
    let mut block = datasheet_block();
    block[6] = 0;
    block[7] = 0;
    let mut h = BMP180BarometerThermometer::new((), Ok::<Vec<u8>, u8>(block), BMP180PressureMode::BMP180UltraLowPower)
        .unwrap();
    assert_eq!(h.coeff.ac4, 0);
    let events = vec![
        BusEvent::Start,
        BusEvent::Written,
        BusEvent::Slept,
        BusEvent::Received(vec![0x6C, 0xFA]),
        BusEvent::Written,
        BusEvent::Slept,
        BusEvent::Received(vec![0x5D, 0x23, 0x00]),
    ];
    for e in events {
        let _ = h.advance::<u8>(e);
    }
    assert_eq!(h.pressure_pa(), Err(ReadingError::DivisionByZero));
    assert_eq!(h.temperature_tenths(), Ok(150));
}
