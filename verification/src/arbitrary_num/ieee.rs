//! Exact values of IEEE 754 binary numbers, given by their bit patterns.
use core::ops::Neg;
use vstd::prelude::*;

use crate::arbitrary_num::ArbitaryNum;

verus! {

/// Two to the power `e`, for any integer `e`.
pub open spec fn pow2(e: int) -> real
    decreases
            if e >= 0 {
                e
            } else {
                -e
            },
{
    if e == 0 {
        1real
    } else if e > 0 {
        2real * pow2(e - 1)
    } else {
        pow2(e + 1) / 2real
    }
}

/// The number with the given sign, significand and power of two.
pub open spec fn binary_value(negative: bool, significand: int, power: int) -> real {
    let size = significand as real * pow2(power);
    if negative {
        -size
    } else {
        size
    }
}

/// Whether a 32-bit pattern is a finite number: neither an infinity nor a
/// NaN.
pub open spec fn binary32_is_finite(bits: u32) -> bool {
    (bits / 0x80_0000) % 0x100 != 0xff
}

/// The number that a finite 32-bit pattern denotes: a sign bit, 8 bits of
/// exponent and 23 bits of fraction.
pub open spec fn binary32_value(bits: u32) -> real {
    let fraction = bits % 0x80_0000;
    let exponent = (bits / 0x80_0000) % 0x100;
    if exponent == 0 {
        binary_value(bits >= 0x8000_0000, fraction as int, -149)
    } else {
        binary_value(bits >= 0x8000_0000, fraction + 0x80_0000, exponent - 150)
    }
}

/// Whether a 64-bit pattern is a finite number: neither an infinity nor a
/// NaN.
pub open spec fn binary64_is_finite(bits: u64) -> bool {
    (bits / 0x10_0000_0000_0000) % 0x800 != 0x7ff
}

/// The number that a finite 64-bit pattern denotes: a sign bit, 11 bits of
/// exponent and 52 bits of fraction.
pub open spec fn binary64_value(bits: u64) -> real {
    let fraction = bits % 0x10_0000_0000_0000;
    let exponent = (bits / 0x10_0000_0000_0000) % 0x800;
    if exponent == 0 {
        binary_value(bits >= 0x8000_0000_0000_0000, fraction as int, -1074)
    } else {
        binary_value(
            bits >= 0x8000_0000_0000_0000,
            fraction + 0x10_0000_0000_0000,
            exponent - 1075,
        )
    }
}

/// The number with the given sign, significand and power of two.
fn binary(negative: bool, significand: u64, power: i32) -> (r: ArbitaryNum)
    ensures
        r@ == binary_value(negative, significand as int, power as int),
{
    let mut size = ArbitaryNum::from_u64(significand);
    let mut done: i32 = 0;
    if power >= 0 {
        while done < power
            invariant
                0 <= done <= power,
                size@ == significand as real * pow2(done as int),
            decreases power - done,
        {
            proof {
                let s = significand as real;
                let p = pow2(done as int);
                assert(pow2(done + 1) == 2real * p);
                assert(s * (2real * p) == (s * p) * 2real) by (nonlinear_arith);
            }
            size = size * ArbitaryNum::two();
            done += 1;
        }
    } else {
        while done > power
            invariant
                power <= done <= 0,
                size@ == significand as real * pow2(done as int),
            decreases done - power,
        {
            proof {
                let s = significand as real;
                let p = pow2(done as int);
                assert(pow2(done - 1) == p / 2real);
                assert(s * (p / 2real) == (s * p) / 2real) by (nonlinear_arith);
            }
            size = size / ArbitaryNum::two();
            done -= 1;
        }
    }
    if negative {
        size.neg()
    } else {
        size
    }
}

impl ArbitaryNum {
    /// The exact value of the finite number with this 32-bit pattern.
    pub fn from_f32_bits(bits: u32) -> (r: ArbitaryNum)
        requires
            binary32_is_finite(bits),
        ensures
            r@ == binary32_value(bits),
    {
        let fraction: u32 = bits % 0x80_0000;
        let exponent: u32 = (bits / 0x80_0000) % 0x100;
        let negative = bits >= 0x8000_0000;
        if exponent == 0 {
            binary(negative, fraction as u64, -149)
        } else {
            binary(negative, (fraction + 0x80_0000) as u64, exponent as i32 - 150)
        }
    }

    /// The exact value of the finite number with this 64-bit pattern.
    pub fn from_f64_bits(bits: u64) -> (r: ArbitaryNum)
        requires
            binary64_is_finite(bits),
        ensures
            r@ == binary64_value(bits),
    {
        let fraction: u64 = bits % 0x10_0000_0000_0000;
        let exponent: u64 = (bits / 0x10_0000_0000_0000) % 0x800;
        let negative = bits >= 0x8000_0000_0000_0000;
        if exponent == 0 {
            binary(negative, fraction, -1074)
        } else {
            binary(negative, fraction + 0x10_0000_0000_0000, exponent as i32 - 1075)
        }
    }
}

} // verus!
