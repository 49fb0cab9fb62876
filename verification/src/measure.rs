//! Sizes that are not whole numbers of units.
//!
//! A parsed document gives each side of its size as a 32-bit binary
//! floating-point number. Here such a number is only ever a bit pattern,
//! taken apart with integer arithmetic: one sign bit, eight bits of
//! exponent, twenty-three bits of fraction. The two sides are brought to
//! one common unit, a power of two below the unit of the document, chosen
//! as fine as the longer side allows in 32 bits and 31 binary places.
//!
//! Both sides are held exactly wherever each is at least a 256th of a unit
//! and less than `2^32` units, and neither is less than a 256th of the
//! other. Beyond that a side is rounded to the nearest unit of the
//! measure, and kept between 1 and `u32::MAX` of them.

use crate::transform::Size;
use vstd::arithmetic::power2::{lemma2_to64, lemma_pow2_strictly_increases, pow2};
use vstd::prelude::*;

verus! {

/// The exponent field of a bit pattern: bits 23 to 30.
pub open spec fn exponent_field(bits: u32) -> int {
    ((bits / 0x80_0000) % 0x100) as int
}

/// The fraction field of a bit pattern: bits 0 to 22.
pub open spec fn fraction_field(bits: u32) -> int {
    (bits % 0x80_0000) as int
}

/// The significand: the fraction, with the hidden bit above it unless the
/// exponent field is zero. The magnitude of the number is
/// `significand * 2^power`.
pub open spec fn significand(bits: u32) -> int {
    if exponent_field(bits) == 0 {
        fraction_field(bits)
    } else {
        fraction_field(bits) + 0x80_0000
    }
}

/// The power of two that the significand is multiplied by.
pub open spec fn power(bits: u32) -> int {
    if exponent_field(bits) == 0 {
        -149
    } else {
        exponent_field(bits) - 150
    }
}

/// How many binary places below the document's unit are kept for a size
/// with these two sides: as many as leave the longer side below `2^32`,
/// but 31 at most.
pub open spec fn places_for(width_bits: u32, height_bits: u32) -> nat {
    let top = if exponent_field(width_bits) >= exponent_field(height_bits) {
        exponent_field(width_bits)
    } else {
        exponent_field(height_bits)
    };
    if top >= 158 {
        0
    } else if top <= 127 {
        31
    } else {
        (158 - top) as nat
    }
}

/// The magnitude of a number in units of `2^-places`: exact where it is a
/// whole number of them, else rounded to the nearest, halves upwards; and
/// kept between 1 and `u32::MAX`.
pub open spec fn in_places(bits: u32, places: nat) -> int {
    let shift = power(bits) + places;
    let whole = if shift >= 0 {
        significand(bits) * pow2(shift as nat)
    } else {
        (2 * significand(bits) + pow2((-shift) as nat)) / (2 * pow2((-shift) as nat) as int)
    };
    if whole < 1 {
        1
    } else if whole > u32::MAX {
        u32::MAX as int
    } else {
        whole
    }
}

/// A size in units of `2^-places` of the document's unit: the width is
/// `size.width / 2^places` document units, and the height likewise.
#[derive(Clone, Copy, Debug, PartialEq, Eq, Structural)]
pub struct Measure {
    pub size: Size,
    pub places: u8,
}

/// The measure of a size whose sides have these bit patterns.
pub open spec fn measure_of(width_bits: u32, height_bits: u32) -> Measure {
    let places = places_for(width_bits, height_bits);
    Measure {
        size: Size {
            width: in_places(width_bits, places) as u32,
            height: in_places(height_bits, places) as u32,
        },
        places: places as u8,
    }
}

/// `2^n` for `n < 32`.
fn power_of_two(n: u32) -> (p: u64)
    requires
        n < 32,
    ensures
        p == pow2(n as nat),
        1 <= p <= 0x8000_0000,
{
    proof {
        lemma2_to64();
        if n < 31 {
            lemma_pow2_strictly_increases(n as nat, 31);
        }
        if n > 0 {
            lemma_pow2_strictly_increases(0, n as nat);
        }
        vstd::bits::lemma_u64_shl_is_mul(1, n as u64);
    }
    1u64 << n
}

/// One side in units of `2^-places`.
fn side(bits: u32, places: u8) -> (units: u32)
    requires
        places <= 31,
    ensures
        units == in_places(bits, places as nat),
        units >= 1,
{
    let field: u32 = bits / 0x80_0000 % 0x100;
    let fraction: u32 = bits % 0x80_0000;
    let (significand, biased): (u64, u32) = if field == 0 {
        (fraction as u64, 1)
    } else {
        (fraction as u64 + 0x80_0000, field)
    };
    let up: u32 = biased + places as u32;
    let whole: u64 = if up >= 150 {
        let shift: u32 = up - 150;
        if significand == 0 {
            0
        } else if shift >= 32 {
            proof {
                lemma2_to64();
                if shift > 32 {
                    lemma_pow2_strictly_increases(32, shift as nat);
                }
                let p = pow2(shift as nat) as int;
                assert(significand * p >= 0x1_0000_0000) by (nonlinear_arith)
                    requires
                        significand >= 1,
                        p >= 0x1_0000_0000,
                ;
            }
            0x1_0000_0000
        } else {
            let p: u64 = power_of_two(shift);
            assert(significand * p <= 0x100_0000 * 0x8000_0000) by (nonlinear_arith)
                requires
                    0 <= significand <= 0x100_0000,
                    0 <= p <= 0x8000_0000,
            ;
            significand * p
        }
    } else {
        let shift: u32 = 150 - up;
        if shift >= 26 {
            proof {
                lemma2_to64();
                if shift > 26 {
                    lemma_pow2_strictly_increases(26, shift as nat);
                }
                let d = pow2(shift as nat) as int;
                assert((2 * significand + d) / (2 * d) == 0) by (nonlinear_arith)
                    requires
                        0 <= 2 * significand < d,
                ;
            }
            0
        } else {
            let d: u64 = power_of_two(shift);
            (2 * significand + d) / (2 * d)
        }
    };
    if whole < 1 {
        1
    } else if whole > 0xffff_ffff {
        0xffff_ffff
    } else {
        whole as u32
    }
}

/// Measures a size from the bit patterns of its two sides. Both sides
/// come out in the same unit, and neither as zero.
pub fn measure(width_bits: u32, height_bits: u32) -> (m: Measure)
    ensures
        m == measure_of(width_bits, height_bits),
        m.size.width >= 1,
        m.size.height >= 1,
        m.places <= 31,
{
    let width_field: u32 = width_bits / 0x80_0000 % 0x100;
    let height_field: u32 = height_bits / 0x80_0000 % 0x100;
    let top: u32 = if width_field >= height_field {
        width_field
    } else {
        height_field
    };
    let places: u8 = if top >= 158 {
        0
    } else if top <= 127 {
        31
    } else {
        (158 - top) as u8
    };
    Measure { size: Size { width: side(width_bits, places), height: side(height_bits, places) }, places }
}

/// Nothing is rounded in the common case. Where both exponent fields lie
/// between 119 and 158 (both sides at least a 256th of a unit and less
/// than `2^32` units) and differ by 8 at most (neither side less than a
/// 256th of the other), either side is held exactly: it is its
/// significand, shifted up to the unit of the measure.
pub proof fn lemma_measure_is_exact(width_bits: u32, height_bits: u32)
    requires
        119 <= exponent_field(width_bits) <= 158,
        119 <= exponent_field(height_bits) <= 158,
        exponent_field(width_bits) - exponent_field(height_bits) <= 8,
        exponent_field(height_bits) - exponent_field(width_bits) <= 8,
    ensures
        ({
            let places = places_for(width_bits, height_bits);
            let measure = measure_of(width_bits, height_bits);
            &&& power(width_bits) + places >= 0
            &&& power(height_bits) + places >= 0
            &&& measure.size.width == significand(width_bits) * pow2(
                (power(width_bits) + places) as nat,
            )
            &&& measure.size.height == significand(height_bits) * pow2(
                (power(height_bits) + places) as nat,
            )
        }),
{
    let places = places_for(width_bits, height_bits);
    lemma_side_is_exact(width_bits, places);
    lemma_side_is_exact(height_bits, places);
}

/// A side whose significand needs no bit below the unit, and no bit above
/// the 32nd, is held exactly.
proof fn lemma_side_is_exact(bits: u32, places: nat)
    requires
        exponent_field(bits) != 0,
        0 <= power(bits) + places <= 8,
    ensures
        in_places(bits, places) == significand(bits) * pow2((power(bits) + places) as nat),
{
    let shift = (power(bits) + places) as nat;
    lemma2_to64();
    if shift < 8 {
        lemma_pow2_strictly_increases(shift, 8);
    }
    if shift > 0 {
        lemma_pow2_strictly_increases(0, shift);
    }
    let s = significand(bits);
    let p = pow2(shift) as int;
    assert(0x80_0000 <= s * p <= 0xff_ffff * 0x100) by (nonlinear_arith)
        requires
            0x80_0000 <= s <= 0xff_ffff,
            1 <= p <= 0x100,
    ;
}

} // verus!
