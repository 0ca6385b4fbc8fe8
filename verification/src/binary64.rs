//! IEEE 754 binary64 values, handled through their bit patterns.
//!
//! A `u64` stands for the double-precision number with that encoding: one
//! sign bit, eleven exponent bits, fifty-two fraction bits. The functions
//! here classify and order such patterns with integer arithmetic only.

use vstd::arithmetic::power2::{lemma_pow2_pos, lemma_pow2_strictly_increases, lemma_pow2_unfold, pow2};
use vstd::prelude::*;

verus! {

/// The sign bit.
pub const SIGN_MASK: u64 = 0x8000_0000_0000_0000;

/// The eleven exponent bits.
pub const EXPONENT_MASK: u64 = 0x7ff0_0000_0000_0000;

/// Everything but the sign bit.
pub const MAGNITUDE_MASK: u64 = 0x7fff_ffff_ffff_ffff;

/// The fifty-two fraction bits.
pub const FRACTION_MASK: u64 = 0x000f_ffff_ffff_ffff;

/// The pattern of positive zero.
pub const ZERO: u64 = 0;

/// A pattern encodes a finite number exactly when its exponent bits are not
/// all ones; the remaining patterns are the two infinities and the NaNs.
pub open spec fn is_finite_bits(bits: u64) -> bool {
    bits & EXPONENT_MASK != EXPONENT_MASK
}

/// Whether the sign bit is set.
pub open spec fn is_negative_bits(bits: u64) -> bool {
    bits & SIGN_MASK != 0
}

/// The pattern without its sign bit, as an integer. Among finite patterns
/// of one sign, a larger magnitude encodes a number further from zero.
pub open spec fn magnitude(bits: u64) -> int {
    (bits & MAGNITUDE_MASK) as int
}

/// An integer that orders patterns as the numbers they encode are ordered:
/// for finite `a` and `b`, `order_key(a) < order_key(b)` exactly when the
/// number of `a` is less than the number of `b`. Both zeros have key 0.
pub open spec fn order_key(bits: u64) -> int {
    if is_negative_bits(bits) {
        -magnitude(bits)
    } else {
        magnitude(bits)
    }
}

/// Whether `bits` encodes a finite number.
pub fn is_finite(bits: u64) -> (r: bool)
    ensures
        r == is_finite_bits(bits),
{
    bits & EXPONENT_MASK != EXPONENT_MASK
}

/// The order key of `bits` as a machine integer.
pub fn key(bits: u64) -> (k: i64)
    ensures
        k == order_key(bits),
{
    let m: u64 = bits & MAGNITUDE_MASK;
    assert(m <= 0x7fff_ffff_ffff_ffffu64) by (bit_vector)
        requires
            m == bits & 0x7fff_ffff_ffff_ffffu64,
    ;
    if bits & SIGN_MASK != 0 {
        -(m as i64)
    } else {
        m as i64
    }
}

/// Whether the number of `a` is strictly below the number of `b`.
pub fn less(a: u64, b: u64) -> (r: bool)
    ensures
        r == (order_key(a) < order_key(b)),
{
    key(a) < key(b)
}

/// The exponent bits of a pattern, as a number from 0 to 2047.
pub open spec fn exponent_field(bits: u64) -> int {
    ((bits & EXPONENT_MASK) >> 52) as int
}

/// The fraction bits of a pattern, as a number below 2^52.
pub open spec fn fraction_field(bits: u64) -> int {
    (bits & FRACTION_MASK) as int
}

/// The absolute value of the number that a finite pattern encodes,
/// multiplied by 2^1074, which makes it an integer: the fraction itself
/// while the exponent bits are zero, and otherwise the fraction with the
/// implicit leading bit, shifted by the exponent.
pub open spec fn scaled_magnitude(bits: u64) -> int {
    if exponent_field(bits) == 0 {
        fraction_field(bits)
    } else {
        (0x10_0000_0000_0000 + fraction_field(bits)) * pow2((exponent_field(bits) - 1) as nat)
    }
}

/// The number that a finite pattern encodes, multiplied by 2^1074.
pub open spec fn scaled_value(bits: u64) -> int {
    if is_negative_bits(bits) {
        -scaled_magnitude(bits)
    } else {
        scaled_magnitude(bits)
    }
}

/// A pattern without its sign is its exponent bits above its fraction
/// bits, and it is finite exactly when the exponent is below 2047.
proof fn lemma_fields(bits: u64)
    ensures
        magnitude(bits) == exponent_field(bits) * 0x10_0000_0000_0000 + fraction_field(bits),
        0 <= exponent_field(bits) <= 2047,
        0 <= fraction_field(bits) < 0x10_0000_0000_0000,
        is_finite_bits(bits) <==> exponent_field(bits) != 2047,
{
    let m: u64 = bits & MAGNITUDE_MASK;
    let e: u64 = (bits & EXPONENT_MASK) >> 52;
    let f: u64 = bits & FRACTION_MASK;
    assert(e <= 2047 && f < 0x10_0000_0000_0000 && m == (e << 52) + f && (e << 52) == e
        * 0x10_0000_0000_0000 && ((bits & 0x7ff0_0000_0000_0000 != 0x7ff0_0000_0000_0000) <==> e
        != 2047)) by (bit_vector)
        requires
            m == bits & 0x7fff_ffff_ffff_ffff,
            e == (bits & 0x7ff0_0000_0000_0000) >> 52,
            f == bits & 0x000f_ffff_ffff_ffff,
    ;
}

/// The scaled magnitude grows strictly with the exponent and, within one
/// exponent, with the fraction.
proof fn lemma_scaled_magnitude_increases(a: u64, b: u64)
    requires
        magnitude(a) < magnitude(b),
    ensures
        scaled_magnitude(a) < scaled_magnitude(b),
{
    lemma_fields(a);
    lemma_fields(b);
    let e1 = exponent_field(a);
    let f1 = fraction_field(a);
    let e2 = exponent_field(b);
    let f2 = fraction_field(b);
    let p: int = 0x10_0000_0000_0000;
    if e1 == e2 {
        if e1 > 0 {
            let k = pow2((e1 - 1) as nat) as int;
            lemma_pow2_pos((e1 - 1) as nat);
            assert((p + f1) * k < (p + f2) * k) by (nonlinear_arith)
                requires
                    f1 < f2,
                    k > 0,
            ;
        }
    } else {
        assert(e1 < e2) by (nonlinear_arith)
            requires
                e1 * p + f1 < e2 * p + f2,
                0 <= f1 < p,
                0 <= f2 < p,
                e1 != e2,
                p > 0,
        ;
        let k2 = pow2((e2 - 1) as nat) as int;
        lemma_pow2_pos((e2 - 1) as nat);
        assert(p * k2 <= (p + f2) * k2) by (nonlinear_arith)
            requires
                0 <= f2,
                k2 > 0,
        ;
        if e1 == 0 {
            assert(p <= p * k2) by (nonlinear_arith)
                requires
                    k2 >= 1,
                    p > 0,
            ;
        } else {
            let k1 = pow2((e1 - 1) as nat) as int;
            lemma_pow2_pos((e1 - 1) as nat);
            lemma_pow2_unfold(e1 as nat);
            if e1 < e2 - 1 {
                lemma_pow2_strictly_increases(e1 as nat, (e2 - 1) as nat);
            }
            assert(2 * k1 <= k2);
            assert((p + f1) * k1 < p * k2) by (nonlinear_arith)
                requires
                    0 <= f1 < p,
                    k1 > 0,
                    2 * k1 <= k2,
                    p > 0,
            ;
        }
    }
}

/// Patterns with the same magnitude encode numbers of the same absolute
/// value.
proof fn lemma_scaled_magnitude_same(a: u64, b: u64)
    requires
        magnitude(a) == magnitude(b),
    ensures
        scaled_magnitude(a) == scaled_magnitude(b),
{
    let m1: u64 = a & MAGNITUDE_MASK;
    let m2: u64 = b & MAGNITUDE_MASK;
    assert(m1 == m2);
    assert((a & 0x7ff0_0000_0000_0000) >> 52 == (b & 0x7ff0_0000_0000_0000) >> 52 && a
        & 0x000f_ffff_ffff_ffff == b & 0x000f_ffff_ffff_ffff) by (bit_vector)
        requires
            a & 0x7fff_ffff_ffff_ffff == b & 0x7fff_ffff_ffff_ffff,
    ;
}

/// The order of the keys is the order of the numbers: of two finite
/// patterns, one has the smaller key exactly when it encodes the smaller
/// number, and they have the same key exactly when they encode the same
/// number.
pub proof fn lemma_order_key_is_numeric_order(a: u64, b: u64)
    requires
        is_finite_bits(a),
        is_finite_bits(b),
    ensures
        order_key(a) < order_key(b) <==> scaled_value(a) < scaled_value(b),
        order_key(a) == order_key(b) <==> scaled_value(a) == scaled_value(b),
{
    lemma_fields(a);
    lemma_fields(b);
    let zero: u64 = 0;
    assert(magnitude(zero) == 0 && exponent_field(zero) == 0 && fraction_field(zero) == 0) by {
        assert(0u64 & 0x7fff_ffff_ffff_ffff == 0 && (0u64 & 0x7ff0_0000_0000_0000) >> 52 == 0
            && 0u64 & 0x000f_ffff_ffff_ffff == 0) by (bit_vector);
    }
    assert(scaled_magnitude(zero) == 0);
    if magnitude(a) > 0 {
        lemma_scaled_magnitude_increases(zero, a);
    } else {
        lemma_scaled_magnitude_same(zero, a);
    }
    if magnitude(b) > 0 {
        lemma_scaled_magnitude_increases(zero, b);
    } else {
        lemma_scaled_magnitude_same(zero, b);
    }
    if magnitude(a) < magnitude(b) {
        lemma_scaled_magnitude_increases(a, b);
    } else if magnitude(b) < magnitude(a) {
        lemma_scaled_magnitude_increases(b, a);
    } else {
        lemma_scaled_magnitude_same(a, b);
    }
}

} // verus!
