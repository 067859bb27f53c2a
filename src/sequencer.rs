//! The acquisition sequencer: trigger a temperature conversion, wait, read
//! it; trigger a pressure conversion, wait, read it. The sequencer decides;
//! its caller performs each bus operation or wait and reports the outcome.
use vstd::prelude::*;
use crate::arith::lemma_i32_shr_small;
use crate::bytes::{be_i16, be_u24, read_i16_be};
use crate::compensation::{oss_factor, BMP180RawReading};
use crate::error::Error;
use crate::mode::BMP180PressureMode;
use crate::registers::{
    BMP180_CMD_PRESSURE, BMP180_CMD_TEMP, BMP180_REGISTER_CTL, BMP180_REGISTER_PRESSURE_MSB,
    BMP180_REGISTER_TEMP_MSB, BMP180_TEMP_DELAY_MS,
};

verus! {

/// Where an acquisition stands; each state but `Idle` names the bus
/// operation or wait whose outcome is awaited.
#[derive(Debug, Clone, Copy, PartialEq, Eq, Structural)]
pub enum AcquisitionState {
    /// No acquisition in progress.
    Idle,
    /// The temperature command is being written.
    TriggeringTemperature,
    /// Waiting for the temperature conversion.
    WaitingTemperature,
    /// The raw temperature is being read.
    ReadingTemperature,
    /// The pressure command is being written.
    TriggeringPressure { tadc: i16 },
    /// Waiting for the pressure conversion.
    WaitingPressure { tadc: i16 },
    /// The raw pressure is being read.
    ReadingPressure { tadc: i16 },
}

/// What the caller reports to the sequencer.
#[derive(Debug, PartialEq, Eq)]
pub enum BusEvent<E> {
    /// A new acquisition is requested.
    Start,
    /// The requested write succeeded.
    Written,
    /// The requested wait is over.
    Slept,
    /// The requested read succeeded with these bytes.
    Received(Vec<u8>),
    /// The requested bus operation failed.
    Failed(E),
}

/// What the sequencer asks of the caller next.
#[derive(Debug, PartialEq, Eq)]
pub enum BusAction<E> {
    /// Write `value` to the device register `register`.
    Write { register: u8, value: u8 },
    /// Wait `ms` milliseconds.
    Sleep { ms: u8 },
    /// Write the register address `register`, then read `len` bytes.
    WriteRead { register: u8, len: usize },
    /// The acquisition is complete with this reading.
    Complete(BMP180RawReading),
    /// The acquisition failed and was abandoned.
    Abort(Error<E>),
}

/// The pressure command for a mode: `0x34 + (oss << 6)`.
pub open spec fn pressure_command(mode: BMP180PressureMode) -> u8 {
    (0x34 + mode.oss() * 64) as u8
}

/// The raw pressure code of the 24-bit reply `msb`, `lsb`, `xlsb`:
/// shifted right by `8 - oss`.
pub open spec fn raw_pressure(msb: u8, lsb: u8, xlsb: u8, mode: BMP180PressureMode) -> int {
    be_u24(msb, lsb, xlsb) / (256int / oss_factor(mode.oss()))
}

impl AcquisitionState {
    /// The transition table: the next state and the action it asks for.
    pub open spec fn transition<E>(self, mode: BMP180PressureMode, event: BusEvent<E>) -> (
        AcquisitionState,
        BusAction<E>,
    ) {
        match (self, event) {
            (_, BusEvent::Failed(e)) => (AcquisitionState::Idle, BusAction::Abort(Error::I2C(e))),
            (AcquisitionState::Idle, BusEvent::Start) => (
                AcquisitionState::TriggeringTemperature,
                BusAction::Write { register: BMP180_REGISTER_CTL, value: BMP180_CMD_TEMP },
            ),
            (_, BusEvent::Start) => (AcquisitionState::Idle, BusAction::Abort(Error::Busy)),
            (AcquisitionState::TriggeringTemperature, BusEvent::Written) => (
                AcquisitionState::WaitingTemperature,
                BusAction::Sleep { ms: BMP180_TEMP_DELAY_MS },
            ),
            (AcquisitionState::WaitingTemperature, BusEvent::Slept) => (
                AcquisitionState::ReadingTemperature,
                BusAction::WriteRead { register: BMP180_REGISTER_TEMP_MSB, len: 2 },
            ),
            (AcquisitionState::ReadingTemperature, BusEvent::Received(b)) => if b@.len() == 2 {
                (
                    AcquisitionState::TriggeringPressure { tadc: be_i16(b@[0], b@[1]) as i16 },
                    BusAction::Write { register: BMP180_REGISTER_CTL, value: pressure_command(mode) },
                )
            } else {
                (AcquisitionState::Idle, BusAction::Abort(Error::InvalidInputData))
            },
            (AcquisitionState::TriggeringPressure { tadc }, BusEvent::Written) => (
                AcquisitionState::WaitingPressure { tadc },
                BusAction::Sleep { ms: mode.delay_ms() },
            ),
            (AcquisitionState::WaitingPressure { tadc }, BusEvent::Slept) => (
                AcquisitionState::ReadingPressure { tadc },
                BusAction::WriteRead { register: BMP180_REGISTER_PRESSURE_MSB, len: 3 },
            ),
            (AcquisitionState::ReadingPressure { tadc }, BusEvent::Received(b)) => if b@.len()
                == 3 {
                (
                    AcquisitionState::Idle,
                    BusAction::Complete(
                        BMP180RawReading { padc: raw_pressure(b@[0], b@[1], b@[2], mode) as i32, tadc },
                    ),
                )
            } else {
                (AcquisitionState::Idle, BusAction::Abort(Error::InvalidInputData))
            },
            _ => (AcquisitionState::Idle, BusAction::Abort(Error::InvalidInputData)),
        }
    }

    /// Takes the outcome of the last requested operation and returns the next
    /// state and the next operation. A bus failure, a reply of the wrong
    /// length or an outcome that nothing waited for abandons the acquisition
    /// and returns to `Idle`; so does a request to start while one is in
    /// progress.
    pub fn step<E>(self, mode: BMP180PressureMode, event: BusEvent<E>) -> (r: (
        AcquisitionState,
        BusAction<E>,
    ))
        ensures
            r == self.transition(mode, event),
    {
        match (self, event) {
            (_, BusEvent::Failed(e)) => (AcquisitionState::Idle, BusAction::Abort(Error::I2C(e))),
            (AcquisitionState::Idle, BusEvent::Start) => (
                AcquisitionState::TriggeringTemperature,
                BusAction::Write { register: BMP180_REGISTER_CTL, value: BMP180_CMD_TEMP },
            ),
            (_, BusEvent::Start) => (AcquisitionState::Idle, BusAction::Abort(Error::Busy)),
            (AcquisitionState::TriggeringTemperature, BusEvent::Written) => (
                AcquisitionState::WaitingTemperature,
                BusAction::Sleep { ms: BMP180_TEMP_DELAY_MS },
            ),
            (AcquisitionState::WaitingTemperature, BusEvent::Slept) => (
                AcquisitionState::ReadingTemperature,
                BusAction::WriteRead { register: BMP180_REGISTER_TEMP_MSB, len: 2 },
            ),
            (AcquisitionState::ReadingTemperature, BusEvent::Received(b)) => {
                if b.len() == 2 {
                    let tadc: i16 = read_i16_be(b.as_slice());
                    (
                        AcquisitionState::TriggeringPressure { tadc },
                        BusAction::Write {
                            register: BMP180_REGISTER_CTL,
                            value: pressure_command_of(mode),
                        },
                    )
                } else {
                    (AcquisitionState::Idle, BusAction::Abort(Error::InvalidInputData))
                }
            },
            (AcquisitionState::TriggeringPressure { tadc }, BusEvent::Written) => (
                AcquisitionState::WaitingPressure { tadc },
                BusAction::Sleep { ms: mode.mode_delay() },
            ),
            (AcquisitionState::WaitingPressure { tadc }, BusEvent::Slept) => (
                AcquisitionState::ReadingPressure { tadc },
                BusAction::WriteRead { register: BMP180_REGISTER_PRESSURE_MSB, len: 3 },
            ),
            (AcquisitionState::ReadingPressure { tadc }, BusEvent::Received(b)) => {
                if b.len() == 3 {
                    let padc: i32 = raw_pressure_of(b[0], b[1], b[2], mode);
                    (AcquisitionState::Idle, BusAction::Complete(BMP180RawReading { padc, tadc }))
                } else {
                    (AcquisitionState::Idle, BusAction::Abort(Error::InvalidInputData))
                }
            },
            _ => (AcquisitionState::Idle, BusAction::Abort(Error::InvalidInputData)),
        }
    }
}

/// A cycle in which every bus operation succeeds triggers and reads the
/// temperature before the pressure, waits 5 ms and then the mode's delay, and
/// completes, back in `Idle`, with the reading decoded from the two replies.
pub proof fn lemma_successful_cycle<E>(mode: BMP180PressureMode, t: Vec<u8>, p: Vec<u8>)
    requires
        t@.len() == 2,
        p@.len() == 3,
    ensures
        ({
            let (s1, a1) = AcquisitionState::Idle.transition(mode, BusEvent::<E>::Start);
            let (s2, a2) = s1.transition(mode, BusEvent::<E>::Written);
            let (s3, a3) = s2.transition(mode, BusEvent::<E>::Slept);
            let (s4, a4) = s3.transition(mode, BusEvent::<E>::Received(t));
            let (s5, a5) = s4.transition(mode, BusEvent::<E>::Written);
            let (s6, a6) = s5.transition(mode, BusEvent::<E>::Slept);
            let (s7, a7) = s6.transition(mode, BusEvent::<E>::Received(p));
            &&& a1 == BusAction::<E>::Write { register: BMP180_REGISTER_CTL, value: BMP180_CMD_TEMP }
            &&& a2 == BusAction::<E>::Sleep { ms: 5 }
            &&& a3 == BusAction::<E>::WriteRead { register: BMP180_REGISTER_TEMP_MSB, len: 2 }
            &&& a4 == BusAction::<E>::Write {
                register: BMP180_REGISTER_CTL,
                value: pressure_command(mode),
            }
            &&& a5 == BusAction::<E>::Sleep { ms: mode.delay_ms() }
            &&& a6 == BusAction::<E>::WriteRead { register: BMP180_REGISTER_PRESSURE_MSB, len: 3 }
            &&& s7 == AcquisitionState::Idle
            &&& a7 matches BusAction::Complete(raw)
            &&& raw.tadc as int == be_i16(t@[0], t@[1])
            &&& raw.padc as int == raw_pressure(p@[0], p@[1], p@[2], mode)
        }),
{
    let tadc = be_i16(t@[0], t@[1]);
    assert(-32768 <= tadc <= 32767);
    assert(0 <= raw_pressure(p@[0], p@[1], p@[2], mode) <= 0xff_ffff) by {
        assert(256int / oss_factor(mode.oss()) >= 1);
        vstd::arithmetic::div_mod::lemma_div_is_ordered_by_denominator(
            be_u24(p@[0], p@[1], p@[2]),
            1,
            256int / oss_factor(mode.oss()),
        );
    }
}

/// A bus failure at any point abandons the acquisition: the sequencer goes
/// back to `Idle` and hands the bus's error on unchanged.
pub proof fn lemma_failure_aborts<E>(state: AcquisitionState, mode: BMP180PressureMode, e: E)
    ensures
        state.transition(mode, BusEvent::Failed(e)) == (
            AcquisitionState::Idle,
            BusAction::Abort(Error::I2C(e)),
        ),
{
}

/// The pressure command for a mode: the base command with the oversampling
/// setting in bits 6 and 7.
pub fn pressure_command_of(mode: BMP180PressureMode) -> (r: u8)
    ensures
        r == pressure_command(mode),
        r as int == 0x34 + mode.oss() * 64,
{
    let oss: u8 = mode.get_mode_value();
    assert(oss << 6u8 == oss * 64) by (bit_vector)
        requires
            oss <= 3,
    ;
    BMP180_CMD_PRESSURE + (oss << 6u8)
}

/// Decodes the 24-bit pressure reply into the raw pressure code of the
/// mode's resolution.
pub fn raw_pressure_of(msb: u8, lsb: u8, xlsb: u8, mode: BMP180PressureMode) -> (r: i32)
    ensures
        r as int == raw_pressure(msb, lsb, xlsb, mode),
{
    let oss: u8 = mode.get_mode_value();
    let word: i32 = ((msb as i32) * 65536) + ((lsb as i32) * 256) + (xlsb as i32);
    proof {
        lemma_i32_shr_small(word);
    }
    word >> (8 - oss as u32)
}

} // verus!
