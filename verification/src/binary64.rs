//! The IEEE 754 binary64 format, read from its bit pattern.
//!
//! A pattern has a sign bit, eleven exponent bits and fifty-two fraction
//! bits. Every finite value is a whole number of steps of 2^-1074, so its
//! size is modelled as a natural number of such steps and no rounding enters
//! the model.

use vstd::arithmetic::div_mod::lemma_basic_div;
use vstd::arithmetic::div_mod::lemma_div_denominator;
use vstd::arithmetic::div_mod::lemma_div_is_ordered;
use vstd::arithmetic::div_mod::lemma_div_multiples_vanish;
use vstd::arithmetic::mul::lemma_mul_is_commutative;
use vstd::arithmetic::power2::lemma2_to64;
use vstd::arithmetic::power2::lemma2_to64_rest;
use vstd::arithmetic::power2::lemma_pow2_adds;
use vstd::arithmetic::power2::lemma_pow2_pos;
use vstd::arithmetic::power2::lemma_pow2_strictly_increases;
use vstd::arithmetic::power2::pow2;
use vstd::bits::lemma_u64_shr_is_div;
use vstd::prelude::*;

verus! {

/// Two to the power 11: the number of exponent patterns.
pub const EXPONENT_RANGE: u64 = 0x800;

/// The exponent field of an infinity or a NaN.
pub const EXPONENT_SPECIAL: u64 = 0x7ff;

/// The exponent field of the values from 1 up to, but not including, 2.
pub const EXPONENT_ONE: u64 = 1023;

/// Two to the power 52: the number of fraction patterns, and the implicit
/// leading bit of a normal significand.
pub const FRACTION_RANGE: u64 = 0x10_0000_0000_0000;

/// Two to the power 63: the patterns from here on have the sign bit set.
pub const SIGN_BIT: u64 = 0x8000_0000_0000_0000;

/// The number of steps of 2^-1074 that make up the value one.
pub open spec fn one() -> nat {
    pow2(1074)
}

/// Whether the sign bit is set.
pub open spec fn is_negative(bits: u64) -> bool {
    bits >= SIGN_BIT
}

/// The biased exponent, bits 52 to 62.
pub open spec fn exponent(bits: u64) -> nat {
    (bits / FRACTION_RANGE % EXPONENT_RANGE) as nat
}

/// The fraction, bits 0 to 51.
pub open spec fn fraction(bits: u64) -> nat {
    (bits % FRACTION_RANGE) as nat
}

/// Whether the pattern is a NaN.
pub open spec fn is_nan(bits: u64) -> bool {
    exponent(bits) == EXPONENT_SPECIAL && fraction(bits) != 0
}

/// Whether the pattern is an infinity.
pub open spec fn is_infinite(bits: u64) -> bool {
    exponent(bits) == EXPONENT_SPECIAL && fraction(bits) == 0
}

/// Whether the pattern is a zero, a subnormal or a normal number.
pub open spec fn is_finite(bits: u64) -> bool {
    exponent(bits) < EXPONENT_SPECIAL
}

/// The significand of a normal pattern: the fraction below the implicit
/// leading bit.
pub open spec fn significand(bits: u64) -> nat {
    FRACTION_RANGE as nat + fraction(bits)
}

/// The absolute value of a finite pattern, counted in steps of 2^-1074.
pub open spec fn magnitude(bits: u64) -> nat {
    if exponent(bits) == 0 {
        fraction(bits)
    } else {
        significand(bits) * pow2((exponent(bits) - 1) as nat)
    }
}

/// The absolute value of a finite pattern, rounded towards zero to a whole
/// number.
pub open spec fn whole_part(bits: u64) -> nat {
    magnitude(bits) / one()
}

/// Whether the pattern is the non-negative finite number `num / den`, exactly.
pub open spec fn is_ratio(bits: u64, num: nat, den: nat) -> bool {
    &&& den > 0
    &&& is_finite(bits)
    &&& !is_negative(bits)
    &&& magnitude(bits) * den == num * one()
}

/// The value as a `u32`: rounded towards zero and then brought into range.
/// Whatever lies below zero becomes zero, whatever lies above `u32::MAX`
/// becomes `u32::MAX`, and a NaN becomes zero.
pub open spec fn saturating_u32(bits: u64) -> u32 {
    if is_nan(bits) || is_negative(bits) {
        0
    } else if is_infinite(bits) || whole_part(bits) > u32::MAX {
        u32::MAX
    } else {
        whole_part(bits) as u32
    }
}

/// A pattern that is exactly the whole number `n` has the whole part `n`, and
/// converts to `n` where `n` fits.
pub proof fn lemma_whole_number(bits: u64, n: nat)
    requires
        is_ratio(bits, n, 1),
    ensures
        whole_part(bits) == n,
        n <= u32::MAX ==> saturating_u32(bits) == n,
{
    lemma_pow2_pos(1074);
    lemma_div_multiples_vanish(n as int, one() as int);
    lemma_mul_is_commutative(n as int, one() as int);
}

/// A normal pattern below one has the whole part zero, and so has every
/// subnormal.
proof fn lemma_whole_part_small(bits: u64)
    requires
        exponent(bits) < EXPONENT_ONE,
    ensures
        whole_part(bits) == 0,
{
    let e = exponent(bits);
    lemma2_to64();
    lemma2_to64_rest();
    assert(pow2(1074) == pow2(53) * pow2(1021)) by {
        lemma_pow2_adds(53, 1021);
    }
    lemma_pow2_pos(1021);
    if e == 0 {
        assert(magnitude(bits) < pow2(53) * pow2(1021)) by (nonlinear_arith)
            requires
                magnitude(bits) < pow2(53),
                pow2(1021) >= 1,
        ;
    } else {
        let p = pow2((e - 1) as nat);
        lemma_pow2_pos((e - 1) as nat);
        assert(p <= pow2(1021)) by {
            if e - 1 < 1021 {
                lemma_pow2_strictly_increases((e - 1) as nat, 1021);
            }
        }
        assert(significand(bits) * p < pow2(53) * pow2(1021)) by (nonlinear_arith)
            requires
                significand(bits) < pow2(53),
                0 < p <= pow2(1021),
        ;
    }
    lemma_basic_div(magnitude(bits) as int, one() as int);
}

/// A finite pattern from 2^32 on has a whole part above `u32::MAX`.
proof fn lemma_whole_part_large(bits: u64)
    requires
        EXPONENT_ONE + 32 <= exponent(bits),
    ensures
        whole_part(bits) > u32::MAX,
{
    let e = exponent(bits);
    let p = pow2((e - 1) as nat);
    lemma2_to64();
    lemma2_to64_rest();
    assert(pow2(1054) <= p) by {
        if 1054 < e - 1 {
            lemma_pow2_strictly_increases(1054, (e - 1) as nat);
        }
    }
    assert(pow2(1074) == pow2(20) * pow2(1054)) by {
        lemma_pow2_adds(20, 1054);
    }
    lemma_pow2_pos(1054);
    assert(pow2(32) * one() <= magnitude(bits)) by (nonlinear_arith)
        requires
            magnitude(bits) == significand(bits) * p,
            significand(bits) >= pow2(32) * pow2(20),
            one() == pow2(20) * pow2(1054),
            0 < pow2(1054) <= p,
    ;
    lemma_pow2_pos(1074);
    lemma_div_is_ordered((pow2(32) * one()) as int, magnitude(bits) as int, one() as int);
    lemma_div_multiples_vanish(pow2(32) as int, one() as int);
    lemma_mul_is_commutative(pow2(32) as int, one() as int);
}

/// Between one and 2^32 the whole part is the significand without its
/// `1075 - exponent` lowest bits.
proof fn lemma_whole_part_shift(bits: u64)
    requires
        EXPONENT_ONE <= exponent(bits) < EXPONENT_ONE + 32,
    ensures
        whole_part(bits) == significand(bits) / pow2((1075 - exponent(bits)) as nat),
        whole_part(bits) <= u32::MAX,
{
    let e = exponent(bits);
    let s = significand(bits);
    let low = pow2((e - 1) as nat);
    let high = pow2((1075 - e) as nat);
    lemma2_to64();
    lemma2_to64_rest();
    lemma_pow2_pos((e - 1) as nat);
    lemma_pow2_pos((1075 - e) as nat);
    assert(one() == low * high) by {
        lemma_pow2_adds((e - 1) as nat, (1075 - e) as nat);
    }
    assert(magnitude(bits) / one() == s / high) by {
        lemma_div_denominator(magnitude(bits) as int, low as int, high as int);
        lemma_div_multiples_vanish(s as int, low as int);
        lemma_mul_is_commutative(s as int, low as int);
    }
    assert(pow2(21) <= high) by {
        if 21 < 1075 - e {
            lemma_pow2_strictly_increases(21, (1075 - e) as nat);
        }
    }
    assert(s / high <= u32::MAX) by (nonlinear_arith)
        requires
            0 <= s < 0x20_0000_0000_0000,
            0x20_0000 <= high,
    ;
}

/// Converts the value with the bit pattern `bits` to a `u32`, rounding
/// towards zero and saturating at the ends of the range.
pub fn to_u32(bits: u64) -> (n: u32)
    ensures
        n == saturating_u32(bits),
{
    let exponent: u64 = bits / FRACTION_RANGE % EXPONENT_RANGE;
    let fraction: u64 = bits % FRACTION_RANGE;
    if bits >= SIGN_BIT {
        0
    } else if exponent == EXPONENT_SPECIAL {
        if fraction != 0 {
            0
        } else {
            u32::MAX
        }
    } else if exponent < EXPONENT_ONE {
        proof {
            lemma_whole_part_small(bits);
        }
        0
    } else if exponent >= EXPONENT_ONE + 32 {
        proof {
            lemma_whole_part_large(bits);
        }
        u32::MAX
    } else {
        let significand: u64 = FRACTION_RANGE + fraction;
        let shift: u64 = 1075 - exponent;
        proof {
            lemma_whole_part_shift(bits);
            lemma_u64_shr_is_div(significand, shift);
        }
        (significand >> shift) as u32
    }
}

} // verus!
