//! Driver core for the BMP180 barometric pressure and temperature sensor.
//!
//! The library holds everything that decides or computes: the register
//! catalog, the calibration block decoder, the acquisition sequencer (a state
//! machine that says which bus operation comes next) and the fixed-point
//! compensation that turns raw codes into tenths of a degree Celsius and
//! pascals. Performing the bus operations and the waits is left to the caller.
pub mod arith;
pub mod bytes;
pub mod calibration;
pub mod compensation;
pub mod error;
pub mod mode;
pub mod registers;
pub mod sensor;
pub mod sequencer;

pub use calibration::BMP180CalibrationCoefficients;
pub use compensation::{
    calculate_real_pressure, calculate_true_temperature, compensate, BMP180RawReading,
    BMP180Sample,
};
pub use error::{Error, ReadingError};
pub use mode::BMP180PressureMode;
pub use registers::{
    BMP180_CALIBRATION_LEN, BMP180_CMD_PRESSURE, BMP180_CMD_TEMP, BMP180_I2C_ADDR,
    BMP180_REGISTER_AC1MSB, BMP180_REGISTER_CTL, BMP180_REGISTER_PRESSURE_MSB,
    BMP180_REGISTER_TEMP_MSB, BMP180_TEMP_DELAY_MS,
};
pub use sensor::BMP180BarometerThermometer;
pub use sequencer::{AcquisitionState, BusAction, BusEvent};
