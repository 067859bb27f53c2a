//! Fixed addresses and opcodes of the BMP180.
use vstd::prelude::*;

verus! {

/// BMP180 default device address.
pub const BMP180_I2C_ADDR: u8 = 0x77;

/// Measurement control register address.
pub const BMP180_REGISTER_CTL: u8 = 0xF4;

/// Temperature measurement command.
pub const BMP180_CMD_TEMP: u8 = 0x2E;

/// Temperature register MSB address.
pub const BMP180_REGISTER_TEMP_MSB: u8 = 0xF6;

/// Pressure measurement command; the oversampling setting goes in bits 6 and 7.
pub const BMP180_CMD_PRESSURE: u8 = 0x34;

/// Pressure register MSB address.
pub const BMP180_REGISTER_PRESSURE_MSB: u8 = 0xF6;

/// Calibration register address AC1 MSB, the start of the calibration block.
pub const BMP180_REGISTER_AC1MSB: u8 = 0xAA;

/// Length in bytes of the calibration block.
pub const BMP180_CALIBRATION_LEN: usize = 22;

/// Conversion time in milliseconds allowed for a temperature measurement.
pub const BMP180_TEMP_DELAY_MS: u8 = 5;

} // verus!
