//! Whole pixels from floating-point coordinates.
//!
//! Coordinates reach the renderer as bit patterns of 32-bit IEEE-754
//! numbers; the graphics calls that take pixels want integers. The way from
//! one to the other is to drop the fractional part and to stop at the ends
//! of the integer range.

use vstd::prelude::*;
use vstd::arithmetic::div_mod::{lemma_basic_div, lemma_div_denominator};
use vstd::arithmetic::mul::lemma_mul_inequality;
use vstd::arithmetic::power2::{lemma2_to64, lemma_pow2_pos, lemma_pow2_strictly_increases, lemma_pow2_unfold, pow2};

verus! {

/// Whether the sign bit of the number is set.
pub open spec fn negative(bits: u32) -> bool {
    bits >= 0x8000_0000
}

/// The exponent field of the number.
pub open spec fn exponent(bits: u32) -> nat {
    (bits / 0x80_0000 % 0x100) as nat
}

/// The fraction field of the number.
pub open spec fn fraction(bits: u32) -> nat {
    (bits % 0x80_0000) as nat
}

/// Whether the bit pattern is that of no number.
pub open spec fn is_nan(bits: u32) -> bool {
    exponent(bits) == 255 && fraction(bits) != 0
}

/// The significand of the number: the fraction, with the leading one
/// unless the number is subnormal. The magnitude of the number is its
/// significand times two to the power of its exponent field less 150 (for
/// a subnormal number: times two to the power of -149).
pub open spec fn significand(bits: u32) -> nat {
    if exponent(bits) == 0 {
        fraction(bits)
    } else {
        0x80_0000 + fraction(bits)
    }
}

/// The magnitude of the number without its fractional part. Infinity
/// counts as a number beyond all integers of 32 bits.
pub open spec fn whole_magnitude(bits: u32) -> nat {
    if exponent(bits) >= 150 {
        significand(bits) * pow2((exponent(bits) - 150) as nat)
    } else {
        significand(bits) / pow2((150 - exponent(bits)) as nat)
    }
}

/// The pixel for a coordinate: the number without its fractional part,
/// where that is an integer of 32 bits; the nearest end of their range,
/// where it is not; and zero for a bit pattern that is no number.
///
/// A proof about the pixel of a given pattern needs the values of the
/// powers of two, which `vstd::arithmetic::power2::lemma2_to64` provides.
pub open spec fn pixel_of(bits: u32) -> int {
    if is_nan(bits) {
        0
    } else if negative(bits) {
        if whole_magnitude(bits) >= 0x8000_0000 {
            i32::MIN as int
        } else {
            -(whole_magnitude(bits) as int)
        }
    } else {
        if whole_magnitude(bits) >= 0x8000_0000 {
            i32::MAX as int
        } else {
            whole_magnitude(bits) as int
        }
    }
}

/// Every pixel is an integer of 32 bits.
pub proof fn lemma_pixel_fits(bits: u32)
    ensures
        i32::MIN <= pixel_of(bits) <= i32::MAX,
{
}

/// The pixel for a coordinate.
pub fn to_pixel(bits: u32) -> (pixel: i32)
    ensures
        pixel == pixel_of(bits),
{
    let negative = bits >= 0x8000_0000;
    let exponent: u32 = bits / 0x80_0000 % 0x100;
    let fraction: u32 = bits % 0x80_0000;
    proof {
        lemma2_to64();
    }
    if exponent == 255 && fraction != 0 {
        return 0;
    }
    if exponent < 127 {
        proof {
            let shift = (150 - exponent) as nat;
            if shift > 24 {
                lemma_pow2_strictly_increases(24, shift);
            }
            lemma_basic_div(significand(bits) as int, pow2(shift) as int);
        }
        return 0;
    }
    if exponent >= 158 {
        proof {
            let shift = (exponent - 150) as nat;
            if shift > 8 {
                lemma_pow2_strictly_increases(8, shift);
            }
            lemma_mul_inequality(0x80_0000, significand(bits) as int, pow2(shift) as int);
            lemma_mul_inequality(pow2(8) as int, pow2(shift) as int, 0x80_0000);
            assert(0x80_0000 * pow2(shift) == pow2(shift) * 0x80_0000) by (nonlinear_arith);
        }
        return if negative {
            i32::MIN
        } else {
            i32::MAX
        };
    }
    let whole: u64 = 0x80_0000 + fraction as u64;
    let mut magnitude: u64 = whole;
    let mut shift: u32 = 0;
    if exponent <= 150 {
        while shift < 150 - exponent
            invariant
                127 <= exponent <= 150,
                shift <= 150 - exponent,
                whole < 0x100_0000,
                magnitude == whole as nat / pow2(shift as nat),
            decreases 150 - exponent - shift,
        {
            proof {
                lemma_pow2_pos(shift as nat);
                lemma_pow2_unfold((shift + 1) as nat);
                lemma_div_denominator(whole as int, pow2(shift as nat) as int, 2);
                assert(pow2(shift as nat) * 2 == 2 * pow2(shift as nat)) by (nonlinear_arith);
            }
            magnitude = magnitude / 2;
            shift += 1;
        }
    } else {
        while shift < exponent - 150
            invariant
                150 < exponent < 158,
                shift <= exponent - 150,
                whole < 0x100_0000,
                magnitude == whole as nat * pow2(shift as nat),
                magnitude < 0x100_0000 * pow2(shift as nat),
            decreases exponent - 150 - shift,
        {
            proof {
                lemma2_to64();
                lemma_pow2_unfold((shift + 1) as nat);
                if shift < 7 {
                    lemma_pow2_strictly_increases(shift as nat, 7);
                }
                assert(whole * pow2(shift as nat) * 2 == whole * (2 * pow2(shift as nat)))
                    by (nonlinear_arith);
                assert(0x100_0000 * pow2(shift as nat) * 2 == 0x100_0000 * (2 * pow2(
                    shift as nat,
                ))) by (nonlinear_arith);
            }
            magnitude = magnitude * 2;
            shift += 1;
        }
        proof {
            lemma2_to64();
            if shift < 7 {
                lemma_pow2_strictly_increases(shift as nat, 7);
            }
            assert(0x100_0000 * pow2(shift as nat) <= 0x100_0000 * pow2(7)) by (nonlinear_arith)
                requires
                    pow2(shift as nat) <= pow2(7),
            ;
        }
    }
    assert(magnitude == whole_magnitude(bits));
    assert(magnitude < 0x8000_0000);
    if negative {
        -(magnitude as i32)
    } else {
        magnitude as i32
    }
}

} // verus!
