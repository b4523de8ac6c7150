//! Decoding color channels that a platform reports as double-precision
//! floating-point values.
//!
//! Platforms hand accent-color channels over as IEEE-754 doubles in the unit
//! range. Verified code works on the raw 64 bit patterns instead: the range
//! check and the conversion to fixed-point channels are exact integer
//! arithmetic on the sign, exponent and fraction fields.

use vstd::arithmetic::div_mod::{
    lemma_basic_div, lemma_div_multiples_vanish, lemma_multiply_divide_lt,
};
use vstd::arithmetic::power2::{
    lemma2_to64, lemma2_to64_rest, lemma_pow2_adds, lemma_pow2_pos, lemma_pow2_strictly_increases,
    pow2,
};
use vstd::prelude::*;

use crate::theme::{ThemeAccent, CHANNEL_MAX};

verus! {

/// Bit pattern of IEEE-754 double negative zero, which still counts as a
/// channel value of zero.
pub const NEGATIVE_ZERO_BITS: u64 = 0x8000000000000000;

/// Bit pattern of IEEE-754 double `1.0`.
pub const ONE_BITS: u64 = 0x3FF0000000000000;

/// Mask of the 52 fraction bits of a double.
pub const FRACTION_MASK: u64 = 0xFFFFFFFFFFFFF;

/// The implicit leading significand bit of a normal double: 2⁵².
pub const IMPLICIT_BIT: u64 = 0x10000000000000;

/// The sign bit of a double bit pattern.
pub open spec fn sign_of(bits: u64) -> u64 {
    bits >> 63
}

/// The 11 exponent bits of a double bit pattern.
pub open spec fn exp_of(bits: u64) -> u64 {
    (bits >> 52) & 0x7FF
}

/// The 52 fraction bits of a double bit pattern.
pub open spec fn frac_of(bits: u64) -> u64 {
    bits & FRACTION_MASK
}

/// Whether a double bit pattern encodes a value in the unit range `[0, 1]`.
/// That is: negative zero, or a non-negative value whose unbiased exponent is
/// below zero (biased exponent below 1023, subnormals and zero included), or
/// exactly `1.0`. Everything else — values above one, negative values,
/// infinities and NaNs — is out of range.
pub open spec fn channel_in_unit_range(bits: u64) -> bool {
    bits == NEGATIVE_ZERO_BITS || (sign_of(bits) == 0 && (exp_of(bits) < 1023 || (exp_of(bits)
        == 1023 && frac_of(bits) == 0)))
}

/// Check if a color component, given as double bits, is valid: inside the
/// unit range.
pub fn check_color_component(bits: u64) -> (r: bool)
    ensures
        r == channel_in_unit_range(bits),
{
    proof {
        assert((bits == 0x8000000000000000 || ((bits >> 63) == 0 && (((bits >> 52) & 0x7FF) < 1023
            || (((bits >> 52) & 0x7FF) == 1023 && (bits & 0xFFFFFFFFFFFFF) == 0)))) == (bits
            == 0x8000000000000000 || bits <= 0x3FF0000000000000)) by (bit_vector);
    }
    bits == NEGATIVE_ZERO_BITS || bits <= ONE_BITS
}

/// The fixed-point channel a double bit pattern in the unit range stands
/// for: the floor of its value times `CHANNEL_MAX`. A normal double's value
/// is `(2⁵² + fraction) / 2^(1075 − exponent)`; subnormals (exponent 0) are
/// far below one fixed-point step, so they floor to zero.
pub open spec fn channel_fixed_of_bits(bits: u64) -> int {
    if 1 <= exp_of(bits) <= 1023 {
        ((IMPLICIT_BIT + frac_of(bits)) * CHANNEL_MAX) as int / pow2(
            (1075 - exp_of(bits)) as nat,
        ) as int
    } else {
        0
    }
}

/// Powers of two below the exponent width of `u128` stay representable.
proof fn lemma_pow2_fits_u128(e: nat)
    requires
        e < 128,
    ensures
        pow2(e) < 0x100000000000000000000000000000000,
{
    lemma_pow2_strictly_increases(e, 128);
    lemma_pow2_adds(64, 64);
    lemma2_to64();
    assert(pow2(128) == 0x100000000000000000000000000000000) by (nonlinear_arith)
        requires
            pow2(128) == pow2(64) * pow2(64),
            pow2(64) == 0x10000000000000000,
    ;
}

/// Convert a color component, given as double bits in the unit range, to a
/// fixed-point channel. Exact: the result is the floor of the component
/// times `CHANNEL_MAX`, so `1.0` maps to `CHANNEL_MAX` and both zeros map to
/// `0`.
pub fn channel_from_bits(bits: u64) -> (r: u32)
    requires
        channel_in_unit_range(bits),
    ensures
        r == channel_fixed_of_bits(bits),
        r <= CHANNEL_MAX,
{
    let exp: u64 = (bits >> 52) & 0x7FF;
    let frac: u64 = bits & 0xFFFFFFFFFFFFF;
    proof {
        assert((0x8000000000000000u64 >> 52) & 0x7FF == 0) by (bit_vector);
        assert((bits & 0xFFFFFFFFFFFFF) <= 0xFFFFFFFFFFFFF) by (bit_vector);
    }
    if exp == 0 {
        return 0;
    }
    // The range precondition leaves only non-negative normal values here,
    // with a biased exponent of at most 1023 (and a zero fraction at 1023).
    let shift: u64 = 1075 - exp;
    proof {
        assert((IMPLICIT_BIT as u128 + frac as u128) * (CHANNEL_MAX as u128)
            <= 0x1FFFFFFFFFFFFFu128 * 1020000) by (nonlinear_arith)
            requires
                frac <= 0xFFFFFFFFFFFFFu64,
                IMPLICIT_BIT == 0x10000000000000u64,
                CHANNEL_MAX == 1020000u32,
        ;
    }
    let num: u128 = (IMPLICIT_BIT as u128 + frac as u128) * (CHANNEL_MAX as u128);
    if shift >= 124 {
        // The value is far below one fixed-point step: the numerator fits in
        // 73 bits, while the denominator is at least 2¹²⁴.
        proof {
            lemma_pow2_adds(64, 9);
            lemma2_to64();
            assert(pow2(73) == 0x2000000000000000000) by (nonlinear_arith)
                requires
                    pow2(73) == pow2(64) * pow2(9),
                    pow2(64) == 0x10000000000000000,
                    pow2(9) == 0x200,
            ;
            lemma_pow2_strictly_increases(73, shift as nat);
            lemma_basic_div(num as int, pow2(shift as nat) as int);
        }
        return 0;
    }
    let mut den: u128 = 1;
    let mut i: u64 = 0;
    proof {
        lemma2_to64();
    }
    while i < shift
        invariant
            i <= shift < 124,
            den == pow2(i as nat),
        decreases shift - i,
    {
        proof {
            lemma_pow2_fits_u128((i + 1) as nat);
            lemma_pow2_adds(i as nat, 1);
            lemma2_to64();
        }
        den = den * 2;
        i = i + 1;
    }
    proof {
        lemma_pow2_pos(shift as nat);
    }
    let q: u128 = num / den;
    proof {
        lemma2_to64_rest();
        if exp == 1023 {
            // Exactly 1.0: the fraction is zero and the shift is 52, so the
            // quotient is exactly CHANNEL_MAX.
            assert(num == pow2(52) * (CHANNEL_MAX as u128));
            lemma_div_multiples_vanish(CHANNEL_MAX as int, pow2(52) as int);
        } else {
            // Below 1.0: the significand is smaller than the denominator, so
            // the quotient stays below CHANNEL_MAX.
            if 53 < shift {
                lemma_pow2_strictly_increases(53, shift as nat);
            }
            assert(num < pow2(shift as nat) * CHANNEL_MAX) by (nonlinear_arith)
                requires
                    num == (IMPLICIT_BIT as u128 + frac as u128) * (CHANNEL_MAX as u128),
                    (IMPLICIT_BIT as u128 + frac as u128) < pow2(shift as nat),
                    CHANNEL_MAX > 0,
            ;
            lemma_multiply_divide_lt(num as int, pow2(shift as nat) as int, CHANNEL_MAX as int);
        }
    }
    q as u32
}

/// An accent color from three components given as double bits: `None` when
/// any component is outside the unit range (the platform's accent is treated
/// as not configured), the exact fixed-point accent otherwise.
pub fn accent_from_bits(red_bits: u64, green_bits: u64, blue_bits: u64) -> (r: Option<ThemeAccent>)
    ensures
        r is Some <==> channel_in_unit_range(red_bits) && channel_in_unit_range(green_bits)
            && channel_in_unit_range(blue_bits),
        r matches Some(a) ==> a == (ThemeAccent {
            red: channel_fixed_of_bits(red_bits) as u32,
            green: channel_fixed_of_bits(green_bits) as u32,
            blue: channel_fixed_of_bits(blue_bits) as u32,
        }),
        r matches Some(a) ==> a.wf(),
{
    if !check_color_component(red_bits) || !check_color_component(green_bits)
        || !check_color_component(blue_bits) {
        return None;
    }
    Some(
        ThemeAccent {
            red: channel_from_bits(red_bits),
            green: channel_from_bits(green_bits),
            blue: channel_from_bits(blue_bits),
        },
    )
}

} // verus!
