//! Errors of the driver.
use vstd::prelude::*;

verus! {

/// Errors of an acquisition or of the handle's construction.
#[derive(Debug, PartialEq, Eq)]
pub enum Error<E> {
    /// The I²C bus failed; the bus's own error, unchanged.
    I2C(E),
    /// The bus answered with data of the wrong shape (a block or reply of
    /// the wrong length, or a reply that no request was waiting for).
    InvalidInputData,
    /// An acquisition was requested while another one was in progress; the
    /// one in progress is abandoned.
    Busy,
}

/// Errors of a request for calibrated values.
#[derive(Debug, Clone, Copy, PartialEq, Eq, Structural)]
pub enum ReadingError {
    /// No acquisition has completed yet.
    NoReading,
    /// A divisor of the compensation formula is zero: the calibration data is
    /// corrupt or outside the sensor's operating envelope.
    DivisionByZero,
}

} // verus!
