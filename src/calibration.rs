//! The factory calibration coefficients and the shared temperature term `b5`.
use vstd::prelude::*;
use vstd::slice::slice_subrange;
use crate::bytes::{be_i16, be_u16, read_i16_be, read_u16_be};
use crate::registers::BMP180_CALIBRATION_LEN;
use crate::arith::{div_floor, floor_div, lemma_shr_i128_is_div};

verus! {

/// Calibration coefficients, read once from the device's calibration block.
#[derive(Debug, Clone, Copy, PartialEq, Eq, Structural)]
pub struct BMP180CalibrationCoefficients {
    pub ac1: i16,
    pub ac2: i16,
    pub ac3: i16,
    pub ac4: u16,
    pub ac5: u16,
    pub ac6: u16,
    pub b1: i16,
    pub b2: i16,
    pub mb: i16,
    pub mc: i16,
    pub md: i16,
}

/// The signed field at byte offset `at` of a calibration block.
pub open spec fn block_i16(block: Seq<u8>, at: int) -> int {
    be_i16(block[at], block[at + 1])
}

/// The unsigned field at byte offset `at` of a calibration block.
pub open spec fn block_u16(block: Seq<u8>, at: int) -> int {
    be_u16(block[at], block[at + 1])
}

impl BMP180CalibrationCoefficients {
    /// The coefficients are the eleven big-endian fields of `block`, in order.
    pub open spec fn decodes(self, block: Seq<u8>) -> bool {
        &&& block.len() == 22
        &&& self.ac1 as int == block_i16(block, 0)
        &&& self.ac2 as int == block_i16(block, 2)
        &&& self.ac3 as int == block_i16(block, 4)
        &&& self.ac4 as int == block_u16(block, 6)
        &&& self.ac5 as int == block_u16(block, 8)
        &&& self.ac6 as int == block_u16(block, 10)
        &&& self.b1 as int == block_i16(block, 12)
        &&& self.b2 as int == block_i16(block, 14)
        &&& self.mb as int == block_i16(block, 16)
        &&& self.mc as int == block_i16(block, 18)
        &&& self.md as int == block_i16(block, 20)
    }

    /// First term of `b5`: `((raw_temp - ac6) * ac5) >> 15`.
    pub open spec fn b5_x1(self, raw_temp: int) -> int {
        (raw_temp - self.ac6) * self.ac5 / 32768
    }

    /// The divisor of the second term of `b5`: `x1 + md`.
    pub open spec fn b5_divisor(self, raw_temp: int) -> int {
        self.b5_x1(raw_temp) + self.md
    }

    /// The temperature term `b5 = x1 + (mc << 11) / (x1 + md)`, the division
    /// rounding down as in the datasheet's worked example (`x2 = -2344`).
    /// Defined where the divisor is not zero.
    pub open spec fn b5(self, raw_temp: int) -> int {
        self.b5_x1(raw_temp) + floor_div(self.mc * 2048, self.b5_divisor(raw_temp))
    }

    /// Decodes a calibration block: eleven big-endian 16-bit fields, in the
    /// order ac1, ac2, ac3 (signed), ac4, ac5, ac6 (unsigned), b1, b2, mb,
    /// mc, md (signed). `None` where the block is not 22 bytes long.
    pub fn new(block: &[u8]) -> (r: Option<BMP180CalibrationCoefficients>)
        ensures
            block@.len() != 22 <==> r is None,
            r matches Some(c) ==> c.decodes(block@),
    {
        if block.len() != BMP180_CALIBRATION_LEN {
            return None;
        }
        Some(BMP180CalibrationCoefficients {
            ac1: read_i16_be(slice_subrange(block, 0, 2)),
            ac2: read_i16_be(slice_subrange(block, 2, 4)),
            ac3: read_i16_be(slice_subrange(block, 4, 6)),
            ac4: read_u16_be(slice_subrange(block, 6, 8)),
            ac5: read_u16_be(slice_subrange(block, 8, 10)),
            ac6: read_u16_be(slice_subrange(block, 10, 12)),
            b1: read_i16_be(slice_subrange(block, 12, 14)),
            b2: read_i16_be(slice_subrange(block, 14, 16)),
            mb: read_i16_be(slice_subrange(block, 16, 18)),
            mc: read_i16_be(slice_subrange(block, 18, 20)),
            md: read_i16_be(slice_subrange(block, 20, 22)),
        })
    }

    /// Computes the temperature term `b5` for a raw temperature code, with no
    /// overflow for any coefficients. `None` where the divisor `x1 + md` is zero.
    pub fn calculate_b5(self, raw_temp: i16) -> (r: Option<i32>)
        ensures
            self.b5_divisor(raw_temp as int) == 0 <==> r is None,
            r matches Some(b5) ==> b5 as int == self.b5(raw_temp as int),
    {
        let diff: i128 = raw_temp as i128 - self.ac6 as i128;
        assert(-98303 * 65535 <= diff * self.ac5 <= 32767 * 65535) by (nonlinear_arith)
            requires
                -98303 <= diff <= 32767,
                0 <= self.ac5 <= 65535,
        ;
        let scaled: i128 = diff * (self.ac5 as i128);
        let x1: i128 = scaled >> 15u32;
        proof {
            lemma_shr_i128_is_div(scaled);
        }
        let divisor: i128 = x1 + self.md as i128;
        if divisor == 0 {
            return None;
        }
        let x2: i128 = div_floor(self.mc as i128 * 2048, divisor);
        assert(-0x400_0000 <= x2 <= 0x400_0000) by (nonlinear_arith)
            requires
                x2 == floor_div(self.mc * 2048, divisor as int),
                -0x400_0000 <= self.mc * 2048 <= 0x400_0000,
                divisor != 0,
        ;
        Some((x1 + x2) as i32)
    }
}

} // verus!
