//! The sensor handle: the bus, the calibration coefficients, the chosen mode,
//! the acquisition in progress and the last completed reading.
use vstd::prelude::*;
use crate::calibration::BMP180CalibrationCoefficients;
use crate::compensation::{
    calculate_true_temperature, compensate, meets_zero_divisor, real_pressure, true_temperature,
    BMP180RawReading,
};
use crate::error::{Error, ReadingError};
use crate::mode::BMP180PressureMode;
use crate::sequencer::{AcquisitionState, BusAction, BusEvent};

verus! {

/// The calibrated pressure in pascals of the last reading `last`.
pub open spec fn pressure_of(
    coeff: BMP180CalibrationCoefficients,
    mode: BMP180PressureMode,
    last: Option<BMP180RawReading>,
) -> Result<int, ReadingError> {
    match last {
        None => Err(ReadingError::NoReading),
        Some(raw) => if meets_zero_divisor(raw, coeff, mode) {
            Err(ReadingError::DivisionByZero)
        } else {
            Ok(real_pressure(coeff, raw.padc as int, coeff.b5(raw.tadc as int), mode.oss()))
        },
    }
}

/// The calibrated temperature in tenths of a degree Celsius of the last
/// reading `last`.
pub open spec fn temperature_of(
    coeff: BMP180CalibrationCoefficients,
    last: Option<BMP180RawReading>,
) -> Result<int, ReadingError> {
    match last {
        None => Err(ReadingError::NoReading),
        Some(raw) => if coeff.b5_divisor(raw.tadc as int) == 0 {
            Err(ReadingError::DivisionByZero)
        } else {
            Ok(true_temperature(coeff.b5(raw.tadc as int)))
        },
    }
}

/// Before any acquisition has completed, as `new` leaves a handle, neither
/// pressure nor temperature is reported: both give `NoReading`, never a value.
pub proof fn lemma_no_reading_before_acquisition<I2C>(h: BMP180BarometerThermometer<I2C>)
    requires
        h.last_reading is None,
    ensures
        pressure_of(h.coeff, h.pressure_precision, h.last_reading) == Err::<int, ReadingError>(
            ReadingError::NoReading,
        ),
        temperature_of(h.coeff, h.last_reading) == Err::<int, ReadingError>(
            ReadingError::NoReading,
        ),
{
}

/// BMP180 sensor handle.
pub struct BMP180BarometerThermometer<I2C> {
    /// Holds the I2C bus.
    pub i2c: I2C,
    /// Holds the factory calibration coefficients.
    pub coeff: BMP180CalibrationCoefficients,
    /// Holds the chosen pressure mode.
    pub pressure_precision: BMP180PressureMode,
    /// Holds the last completed raw reading; only `advance` replaces it.
    pub last_reading: Option<BMP180RawReading>,
    /// Holds the acquisition in progress.
    pub acquisition: AcquisitionState,
}

impl<I2C> BMP180BarometerThermometer<I2C> {
    /// Creates the handle from the bus and the outcome of reading the
    /// 22-byte calibration block from it. A failed read, or a block of
    /// another length, gives no handle.
    pub fn new<E>(
        i2c: I2C,
        calibration: Result<Vec<u8>, E>,
        pressure_precision: BMP180PressureMode,
    ) -> (r: Result<BMP180BarometerThermometer<I2C>, Error<E>>)
        ensures
            calibration matches Err(e) ==> r == Err::<BMP180BarometerThermometer<I2C>, Error<E>>(
                Error::I2C(e),
            ),
            calibration matches Ok(block) ==> {
                &&& block@.len() != 22 ==> r == Err::<BMP180BarometerThermometer<I2C>, Error<E>>(
                    Error::InvalidInputData,
                )
                &&& block@.len() == 22 ==> r is Ok
            },
            r matches Ok(h) ==> {
                &&& calibration matches Ok(block) && h.coeff.decodes(block@)
                &&& h.i2c == i2c
                &&& h.pressure_precision == pressure_precision
                &&& h.last_reading is None
                &&& h.acquisition == AcquisitionState::Idle
            },
    {
        let block = match calibration {
            Ok(block) => block,
            Err(e) => return Err(Error::I2C(e)),
        };
        let coeff = match BMP180CalibrationCoefficients::new(block.as_slice()) {
            Some(c) => c,
            None => return Err(Error::InvalidInputData),
        };
        Ok(BMP180BarometerThermometer {
            i2c,
            coeff,
            pressure_precision,
            last_reading: None,
            acquisition: AcquisitionState::Idle,
        })
    }

    /// Advances the acquisition in progress with the outcome of the last
    /// requested operation and returns the next one. A completed acquisition
    /// replaces the last reading as a whole; nothing else changes it.
    pub fn advance<E>(&mut self, event: BusEvent<E>) -> (action: BusAction<E>)
        ensures
            (final(self).acquisition, action) == old(self).acquisition.transition(
                old(self).pressure_precision,
                event,
            ),
            final(self).last_reading == (match action {
                BusAction::Complete(raw) => Some(raw),
                _ => old(self).last_reading,
            }),
            final(self).coeff == old(self).coeff,
            final(self).pressure_precision == old(self).pressure_precision,
            final(self).i2c == old(self).i2c,
    {
        let (next, action) = self.acquisition.step(self.pressure_precision, event);
        self.acquisition = next;
        if let BusAction::Complete(raw) = &action {
            self.last_reading = Some(*raw);
        }
        action
    }

    /// Returns the measured pressure in pascals. `NoReading` before the
    /// first completed acquisition.
    pub fn pressure_pa(&self) -> (r: Result<i64, ReadingError>)
        ensures
            r matches Ok(p) ==> pressure_of(self.coeff, self.pressure_precision, self.last_reading)
                == Ok::<int, ReadingError>(p as int),
            r matches Err(e) ==> pressure_of(self.coeff, self.pressure_precision, self.last_reading)
                == Err::<int, ReadingError>(e),
    {
        match self.last_reading {
            None => Err(ReadingError::NoReading),
            Some(raw) => match compensate(raw, self.coeff, self.pressure_precision) {
                Ok(sample) => Ok(sample.pressure),
                Err(e) => Err(e),
            },
        }
    }

    /// Returns the measured temperature in tenths of a degree Celsius.
    /// `NoReading` before the first completed acquisition.
    pub fn temperature_tenths(&self) -> (r: Result<i32, ReadingError>)
        ensures
            r matches Ok(t) ==> temperature_of(self.coeff, self.last_reading) == Ok::<int, ReadingError>(
                t as int,
            ),
            r matches Err(e) ==> temperature_of(self.coeff, self.last_reading) == Err::<int, ReadingError>(
                e,
            ),
    {
        match self.last_reading {
            None => Err(ReadingError::NoReading),
            Some(raw) => match self.coeff.calculate_b5(raw.tadc) {
                Some(b5) => Ok(calculate_true_temperature(b5)),
                None => Err(ReadingError::DivisionByZero),
            },
        }
    }
}

} // verus!
