//! Pressure oversampling modes.
use vstd::prelude::*;

verus! {

/// BMP180 hardware pressure sampling accuracy modes.
#[derive(Debug, Clone, Copy, PartialEq, Eq, Structural)]
pub enum BMP180PressureMode {
    /// Ultra low power: 1 internal sample, conversion within 4.5 ms.
    BMP180UltraLowPower,
    /// Standard: 2 internal samples, conversion within 7.5 ms.
    BMP180Standard,
    /// High resolution: 4 internal samples, conversion within 13.5 ms.
    BMP180HighResolution,
    /// Ultra high resolution: 8 internal samples, conversion within 25.5 ms.
    BMP180UltraHighResolution,
}

impl BMP180PressureMode {
    /// The oversampling setting `oss` of the mode, from 0 to 3.
    pub open spec fn oss(self) -> u8 {
        match self {
            BMP180PressureMode::BMP180UltraLowPower => 0,
            BMP180PressureMode::BMP180Standard => 1,
            BMP180PressureMode::BMP180HighResolution => 2,
            BMP180PressureMode::BMP180UltraHighResolution => 3,
        }
    }

    /// The whole number of milliseconds to wait for a pressure conversion.
    pub open spec fn delay_ms(self) -> u8 {
        match self {
            BMP180PressureMode::BMP180UltraLowPower => 5,
            BMP180PressureMode::BMP180Standard => 8,
            BMP180PressureMode::BMP180HighResolution => 14,
            BMP180PressureMode::BMP180UltraHighResolution => 26,
        }
    }

    /// Returns the oversampling setting of the mode.
    pub fn get_mode_value(self) -> (r: u8)
        ensures
            r == self.oss(),
            r <= 3,
    {
        match self {
            BMP180PressureMode::BMP180UltraLowPower => 0,
            BMP180PressureMode::BMP180Standard => 1,
            BMP180PressureMode::BMP180HighResolution => 2,
            BMP180PressureMode::BMP180UltraHighResolution => 3,
        }
    }

    /// Returns the conversion delay of the mode in milliseconds.
    pub fn mode_delay(self) -> (r: u8)
        ensures
            r == self.delay_ms(),
    {
        match self {
            BMP180PressureMode::BMP180UltraLowPower => 5,
            BMP180PressureMode::BMP180Standard => 8,
            BMP180PressureMode::BMP180HighResolution => 14,
            BMP180PressureMode::BMP180UltraHighResolution => 26,
        }
    }
}

/// Each mode has its fixed setting and delay: (0, 5 ms), (1, 8 ms), (2, 14 ms)
/// and (3, 26 ms), in order of increasing resolution.
pub proof fn lemma_mode_table(mode: BMP180PressureMode)
    ensures
        mode.oss() <= 3,
        mode == BMP180PressureMode::BMP180UltraLowPower ==> mode.oss() == 0 && mode.delay_ms() == 5,
        mode == BMP180PressureMode::BMP180Standard ==> mode.oss() == 1 && mode.delay_ms() == 8,
        mode == BMP180PressureMode::BMP180HighResolution ==> mode.oss() == 2 && mode.delay_ms()
            == 14,
        mode == BMP180PressureMode::BMP180UltraHighResolution ==> mode.oss() == 3
            && mode.delay_ms() == 26,
{
}

} // verus!
