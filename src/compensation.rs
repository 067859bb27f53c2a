//! The fixed-point compensation of raw codes into tenths of a degree
//! Celsius and pascals.
use vstd::prelude::*;
use crate::arith::{
    as_signed_i32, div_toward_zero, lemma_i128_as_u32, lemma_shr_i128_is_div,
    lemma_shr_i64_is_div, lemma_u32_as_i32, trunc_div, wrap_u32,
};
use crate::calibration::BMP180CalibrationCoefficients;
use crate::error::ReadingError;
use crate::mode::BMP180PressureMode;

verus! {

/// One raw acquisition: the uncompensated temperature and pressure codes.
#[derive(Debug, Clone, Copy, PartialEq, Eq, Structural)]
pub struct BMP180RawReading {
    /// Raw pressure code, already shifted to the mode's resolution.
    pub padc: i32,
    /// Raw temperature code.
    pub tadc: i16,
}

/// Calibrated values computed from one raw acquisition.
#[derive(Debug, Clone, Copy, PartialEq, Eq, Structural)]
pub struct BMP180Sample {
    /// The temperature term shared by both formulas.
    pub b5: i32,
    /// Temperature in tenths of a degree Celsius.
    pub temperature: i32,
    /// Pressure in pascals.
    pub pressure: i64,
}

/// `2^oss`, the factor that a left shift by the oversampling setting applies.
pub open spec fn oss_factor(oss: u8) -> int {
    if oss == 0 {
        1
    } else if oss == 1 {
        2
    } else if oss == 2 {
        4
    } else {
        8
    }
}

/// Temperature in tenths of a degree Celsius: `(b5 + 8) >> 4`.
pub open spec fn true_temperature(b5: int) -> int {
    (b5 + 8) / 16
}

/// `b6 = b5 - 4000`.
pub open spec fn b6(b5: int) -> int {
    b5 - 4000
}

/// `(b6 * b6) >> 12`, shared by both halves of the pressure formula.
pub open spec fn b6_squared(b5: int) -> int {
    b6(b5) * b6(b5) / 4096
}

/// `b3 = (((ac1 * 4 + x3) << oss) + 2) / 4`, with
/// `x3 = ((b2 * b6_squared) >> 11) + ((ac2 * b6) >> 11)`, all signed.
pub open spec fn b3(c: BMP180CalibrationCoefficients, b5: int, oss: u8) -> int {
    let x3 = c.b2 * b6_squared(b5) / 2048 + c.ac2 * b6(b5) / 2048;
    trunc_div((c.ac1 * 4 + x3) * oss_factor(oss) + 2, 4)
}

/// `b4 = (ac4 * (x3 + 32768)) >> 15` in unsigned 32-bit arithmetic, with
/// `x3 = (((ac3 * b6) >> 13) + ((b1 * b6_squared) >> 16) + 2) >> 2`.
pub open spec fn b4(c: BMP180CalibrationCoefficients, b5: int) -> int {
    let x3 = (c.ac3 * b6(b5) / 8192 + c.b1 * b6_squared(b5) / 65536 + 2) / 4;
    wrap_u32(c.ac4 * wrap_u32(x3 + 32768)) / 32768
}

/// `b7 = (padc - b3) * (50000 >> oss)` in unsigned 32-bit arithmetic.
pub open spec fn b7(c: BMP180CalibrationCoefficients, padc: int, b5: int, oss: u8) -> int {
    wrap_u32(wrap_u32(padc - b3(c, b5, oss)) * (50000int / oss_factor(oss)))
}

/// The pressure before the final correction, as a signed 32-bit value:
/// `(b7 * 2) / b4` below `0x8000_0000`, else `(b7 / b4) * 2`.
pub open spec fn uncorrected_pressure(b7: int, b4: int) -> int {
    as_signed_i32(
        if b7 < 0x8000_0000 {
            b7 * 2 / b4
        } else {
            wrap_u32(b7 / b4 * 2)
        },
    )
}

/// The final correction: `p + ((x1 + x2 + 3791) >> 4)` with
/// `x1 = ((p >> 8) * (p >> 8) * 3038) >> 16` and `x2 = (-7357 * p) >> 16`.
pub open spec fn corrected_pressure(p: int) -> int {
    let x1 = (p / 256) * (p / 256) * 3038 / 65536;
    let x2 = (-7357 * p) / 65536;
    p + (x1 + x2 + 3791) / 16
}

/// The compensated pressure in pascals. Defined where `b4` is not zero.
pub open spec fn real_pressure(c: BMP180CalibrationCoefficients, padc: int, b5: int, oss: u8) -> int {
    corrected_pressure(uncorrected_pressure(b7(c, padc, b5, oss), b4(c, b5)))
}

/// Computes the temperature in tenths of a degree Celsius from `b5`.
pub fn calculate_true_temperature(b5: i32) -> (r: i32)
    ensures
        r as int == true_temperature(b5 as int),
{
    let rounded: i64 = b5 as i64 + 8;
    let t: i64 = rounded >> 4u32;
    proof {
        lemma_shr_i64_is_div(rounded);
    }
    t as i32
}

/// Computes the pressure in pascals from the raw pressure code `padc`, the
/// temperature term `b5` and the oversampling mode, following the datasheet's
/// fixed-point algorithm. Signed intermediates are held wide enough that none
/// overflows; the steps that the algorithm performs in unsigned 32-bit
/// arithmetic wrap as they do there. `None` where the divisor `b4` is zero.
pub fn calculate_real_pressure(
    padc: i32,
    b5: i32,
    coeff: BMP180CalibrationCoefficients,
    oss: BMP180PressureMode,
) -> (r: Option<i64>)
    ensures
        b4(coeff, b5 as int) == 0 <==> r is None,
        r matches Some(p) ==> p as int == real_pressure(coeff, padc as int, b5 as int, oss.oss()),
{
    let s: u8 = oss.get_mode_value();
    let b6: i128 = b5 as i128 - 4000;
    assert(0 <= b6 * b6 <= 0x4000_2000_0000_0000) by (nonlinear_arith)
        requires
            -0x8000_1000 <= b6 <= 0x8000_0000,
    ;
    let sq: i128 = b6 * b6;
    let t2: i128 = sq >> 12u32;
    proof {
        lemma_shr_i128_is_div(sq);
    }

    // b3
    assert(-0x8000_0000_0000_0000_0000 <= coeff.b2 * t2 <= 0x8000_0000_0000_0000_0000) by (nonlinear_arith)
        requires
            0 <= t2 <= 0x4_0002_0000_0000,
            -0x8000 <= coeff.b2 <= 0x7fff,
    ;
    let b2_term: i128 = coeff.b2 as i128 * t2;
    assert(-0x8000_0000_0000_0000 <= coeff.ac2 * b6 <= 0x8000_0000_0000_0000) by (nonlinear_arith)
        requires
            -0x8000_1000 <= b6 <= 0x8000_0000,
            -0x8000 <= coeff.ac2 <= 0x7fff,
    ;
    let ac2_term: i128 = coeff.ac2 as i128 * b6;
    proof {
        lemma_shr_i128_is_div(b2_term);
        lemma_shr_i128_is_div(ac2_term);
    }
    let x3: i128 = (b2_term >> 11u32) + (ac2_term >> 11u32);
    let factor: i128 = if s == 0 {
        1
    } else if s == 1 {
        2
    } else if s == 2 {
        4
    } else {
        8
    };
    let b3: i128 = div_toward_zero((coeff.ac1 as i128 * 4 + x3) * factor + 2, 4);
    proof {
        crate::arith::lemma_trunc_div_bound((coeff.ac1 * 4 + x3) * factor + 2, 4);
    }

    // b4
    assert(-0x8000_0000_0000_0000 <= coeff.ac3 * b6 <= 0x8000_0000_0000_0000) by (nonlinear_arith)
        requires
            -0x8000_1000 <= b6 <= 0x8000_0000,
            -0x8000 <= coeff.ac3 <= 0x7fff,
    ;
    let ac3_term: i128 = coeff.ac3 as i128 * b6;
    assert(-0x8000_0000_0000_0000_0000 <= coeff.b1 * t2 <= 0x8000_0000_0000_0000_0000) by (nonlinear_arith)
        requires
            0 <= t2 <= 0x4_0002_0000_0000,
            -0x8000 <= coeff.b1 <= 0x7fff,
    ;
    let b1_term: i128 = coeff.b1 as i128 * t2;
    proof {
        lemma_shr_i128_is_div(ac3_term);
        lemma_shr_i128_is_div(b1_term);
    }
    let sum: i128 = (ac3_term >> 13u32) + (b1_term >> 16u32) + 2;
    let x3b: i128 = sum >> 2u32;
    proof {
        lemma_shr_i128_is_div(sum);
    }
    let biased: i128 = x3b + 32768;
    proof {
        lemma_i128_as_u32(biased);
    }
    let offset: u32 = #[verifier::truncate] (biased as u32);
    assert(coeff.ac4 * offset <= 0xffff * 0xffff_ffff) by (nonlinear_arith)
        requires
            coeff.ac4 <= 0xffff,
            offset <= 0xffff_ffff,
    ;
    let b4: u64 = ((coeff.ac4 as u64 * offset as u64) % 0x1_0000_0000) / 32768;
    if b4 == 0 {
        return None;
    }

    // b7
    let signed_diff: i128 = padc as i128 - b3;
    proof {
        lemma_i128_as_u32(signed_diff);
    }
    let diff: u32 = #[verifier::truncate] (signed_diff as u32);
    let step: u64 = 50000 / (factor as u64);
    assert(diff * step <= 0xffff_ffff * 50000) by (nonlinear_arith)
        requires
            diff <= 0xffff_ffff,
            step <= 50000,
    ;
    let b7: u64 = (diff as u64 * step) % 0x1_0000_0000;

    // p
    let wide: u64 = if b7 < 0x8000_0000 {
        (b7 * 2) / b4
    } else {
        ((b7 / b4) * 2) % 0x1_0000_0000
    };
    assert(wide < 0x1_0000_0000);
    let low: u32 = wide as u32;
    proof {
        lemma_u32_as_i32(low);
    }
    let p32: i32 = #[verifier::truncate] (low as i32);
    let p: i64 = p32 as i64;

    // final correction
    let q: i64 = p >> 8u32;
    proof {
        lemma_shr_i64_is_div(p);
    }
    assert(-0x80_0000 <= q <= 0x80_0000);
    assert(0 <= q * q <= 0x4000_0000_0000) by (nonlinear_arith)
        requires
            -0x80_0000 <= q <= 0x80_0000,
    ;
    let qq: i64 = q * q;
    let m1: i64 = qq * 3038;
    assert(-0x1000_0000_0000 <= -7357 * p <= 0x1000_0000_0000) by (nonlinear_arith)
        requires
            -0x8000_0000 <= p <= 0x7fff_ffff,
    ;
    let m2: i64 = -7357 * p;
    proof {
        lemma_shr_i64_is_div(m1);
        lemma_shr_i64_is_div(m2);
    }
    let x1: i64 = m1 >> 16u32;
    let x2: i64 = m2 >> 16u32;
    let c: i64 = x1 + x2 + 3791;
    proof {
        lemma_shr_i64_is_div(c);
    }
    Some(p + (c >> 4u32))
}

/// Whether compensating `raw` meets a zero divisor.
pub open spec fn meets_zero_divisor(
    raw: BMP180RawReading,
    coeff: BMP180CalibrationCoefficients,
    mode: BMP180PressureMode,
) -> bool {
    coeff.b5_divisor(raw.tadc as int) == 0 || b4(coeff, coeff.b5(raw.tadc as int)) == 0
}

/// Compensates one raw acquisition: `b5` once, then from it the temperature
/// in tenths of a degree Celsius and the pressure in pascals.
/// `DivisionByZero` where a divisor of the formulas is zero.
pub fn compensate(
    raw: BMP180RawReading,
    coeff: BMP180CalibrationCoefficients,
    mode: BMP180PressureMode,
) -> (r: Result<BMP180Sample, ReadingError>)
    ensures
        meets_zero_divisor(raw, coeff, mode) <==> r is Err,
        r matches Err(e) ==> e == ReadingError::DivisionByZero,
        r matches Ok(s) ==> {
            &&& s.b5 as int == coeff.b5(raw.tadc as int)
            &&& s.temperature as int == true_temperature(s.b5 as int)
            &&& s.pressure as int == real_pressure(coeff, raw.padc as int, s.b5 as int, mode.oss())
        },
{
    let b5: i32 = match coeff.calculate_b5(raw.tadc) {
        Some(b5) => b5,
        None => return Err(ReadingError::DivisionByZero),
    };
    let pressure: i64 = match calculate_real_pressure(raw.padc, b5, coeff, mode) {
        Some(p) => p,
        None => return Err(ReadingError::DivisionByZero),
    };
    Ok(BMP180Sample { b5, temperature: calculate_true_temperature(b5), pressure })
}

} // verus!
