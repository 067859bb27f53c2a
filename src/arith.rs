//! Integer facts that the fixed-point formulas rest on.
use vstd::prelude::*;

verus! {

/// Absolute value.
pub open spec fn abs(a: int) -> int {
    if a >= 0 {
        a
    } else {
        -a
    }
}

/// Rust's `/` on signed integers: the quotient rounded toward zero.
pub open spec fn trunc_div(a: int, b: int) -> int {
    if a == 0 {
        0
    } else if a > 0 && b > 0 {
        a / b
    } else if a < 0 && b < 0 {
        (-a) / (-b)
    } else if a < 0 {
        -((-a) / b)
    } else {
        -(a / (-b))
    }
}

/// The quotient rounded down.
pub open spec fn floor_div(a: int, b: int) -> int {
    if b > 0 {
        a / b
    } else {
        (-a) / (-b)
    }
}

/// `v` reduced to the range of `u32`, as an unsigned 32-bit cast wraps it.
pub open spec fn wrap_u32(v: int) -> int {
    v % 0x1_0000_0000
}

/// A value of the range of `u32` read as a two's complement `i32`.
pub open spec fn as_signed_i32(v: int) -> int {
    if v < 0x8000_0000 {
        v
    } else {
        v - 0x1_0000_0000
    }
}

/// A quotient rounded toward zero is no larger than the dividend in magnitude.
pub proof fn lemma_trunc_div_bound(a: int, b: int)
    requires
        b != 0,
    ensures
        abs(trunc_div(a, b)) <= abs(a),
{
    assert forall|n: int, d: int| n >= 0 && d >= 1 implies #[trigger] (n / d) <= n by {
        vstd::arithmetic::div_mod::lemma_div_is_ordered_by_denominator(n, 1, d);
    }
    if a < 0 {
        assert((-a) / abs(b) <= -a);
    } else {
        assert(a / abs(b) <= a);
    }
}

/// Divides, rounding toward zero.
pub fn div_toward_zero(a: i128, b: i128) -> (r: i128)
    requires
        b != 0,
        a > i128::MIN,
    ensures
        r == trunc_div(a as int, b as int),
{
    proof {
        lemma_trunc_div_bound(a as int, b as int);
    }
    match a.checked_div(b) {
        Some(q) => q,
        // Not reached: the quotient is no larger than `a` in magnitude.
        None => 0,
    }
}

/// Divides, rounding down.
pub fn div_floor(a: i128, b: i128) -> (r: i128)
    requires
        b != 0,
        a > i128::MIN,
        b > i128::MIN,
    ensures
        r == floor_div(a as int, b as int),
{
    let (n, d): (i128, i128) = if b > 0 {
        (a, b)
    } else {
        (-a, -b)
    };
    assert(-abs(n as int) <= n / d <= abs(n as int)) by (nonlinear_arith)
        requires
            d >= 1,
    ;
    match n.checked_div_euclid(d) {
        Some(q) => q,
        // Not reached: the quotient is no larger than `n` in magnitude.
        None => 0,
    }
}

/// An arithmetic right shift of an `i128` divides by a power of two,
/// rounding down.
pub proof fn lemma_shr_i128_is_div(x: i128)
    ensures
        x >> 2u32 == x / 4,
        x >> 4u32 == x / 16,
        x >> 11u32 == x / 2048,
        x >> 12u32 == x / 4096,
        x >> 13u32 == x / 8192,
        x >> 15u32 == x / 32768,
        x >> 16u32 == x / 65536,
{
    assert(x >> 2u32 == x / 4) by (bit_vector);
    assert(x >> 4u32 == x / 16) by (bit_vector);
    assert(x >> 11u32 == x / 2048) by (bit_vector);
    assert(x >> 12u32 == x / 4096) by (bit_vector);
    assert(x >> 13u32 == x / 8192) by (bit_vector);
    assert(x >> 15u32 == x / 32768) by (bit_vector);
    assert(x >> 16u32 == x / 65536) by (bit_vector);
}

/// An arithmetic right shift of an `i64` divides by a power of two,
/// rounding down.
pub proof fn lemma_shr_i64_is_div(x: i64)
    ensures
        x >> 4u32 == x / 16,
        x >> 8u32 == x / 256,
        x >> 15u32 == x / 32768,
        x >> 16u32 == x / 65536,
{
    assert(x >> 4u32 == x / 16) by (bit_vector);
    assert(x >> 8u32 == x / 256) by (bit_vector);
    assert(x >> 15u32 == x / 32768) by (bit_vector);
    assert(x >> 16u32 == x / 65536) by (bit_vector);
}

/// Shifting an `i32` right by 5 to 8 places divides by 32 to 256, rounding
/// down.
pub proof fn lemma_i32_shr_small(x: i32)
    ensures
        x >> 5u32 == x / 32,
        x >> 6u32 == x / 64,
        x >> 7u32 == x / 128,
        x >> 8u32 == x / 256,
{
    assert(x >> 5u32 == x / 32) by (bit_vector);
    assert(x >> 6u32 == x / 64) by (bit_vector);
    assert(x >> 7u32 == x / 128) by (bit_vector);
    assert(x >> 8u32 == x / 256) by (bit_vector);
}

/// Casting an `i128` to `u32` keeps its value modulo 2^32.
pub proof fn lemma_i128_as_u32(x: i128)
    ensures
        (x as u32) as int == wrap_u32(x as int),
{
    assert((x as u32) as int == (x as int) % 0x1_0000_0000) by (bit_vector);
}

/// Casting a value of the range of `u32` to `i32` reads it as two's complement.
pub proof fn lemma_u32_as_i32(x: u32)
    ensures
        (x as i32) as int == as_signed_i32(x as int),
{
    assert((x as i32) as int == (if x < 0x8000_0000u32 {
        x as int
    } else {
        x as int - 0x1_0000_0000
    })) by (bit_vector);
}

} // verus!
