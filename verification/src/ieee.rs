//! IEEE 754 binary32 numbers, handled as their bit patterns.
//!
//! A pattern is a `u32`: one sign bit, eight exponent bits, 23 fraction bits.
//! Moving, negating and comparing such numbers needs no arithmetic unit, so it
//! is done here on the patterns and proved.

use vstd::prelude::*;

verus! {

/// Pattern of `+0.0`.
pub const ZERO: u32 = 0x0000_0000;

/// Pattern of `0.5`.
pub const HALF: u32 = 0x3F00_0000;

/// Pattern of `1.0`.
pub const ONE: u32 = 0x3F80_0000;

/// Pattern of `2.0`.
pub const TWO: u32 = 0x4000_0000;

/// Pattern of `-0.5`.
pub const MINUS_HALF: u32 = 0xBF00_0000;

/// Pattern of `-2.0`.
pub const MINUS_TWO: u32 = 0xC000_0000;

/// Pattern of positive infinity: the largest magnitude that is a number.
pub const INFINITY: u32 = 0x7F80_0000;

/// Pattern of the quiet NaN that stands for every NaN in a [`value`].
pub const NAN: u32 = 0x7FC0_0000;

/// The sign bit.
pub const SIGN_BIT: u32 = 0x8000_0000;

/// The pattern with its sign bit cleared.
pub open spec fn magnitude(bits: u32) -> u32 {
    bits & 0x7FFF_FFFF
}

/// Whether the sign bit is set.
pub open spec fn is_negative(bits: u32) -> bool {
    bits >= SIGN_BIT
}

/// Whether the pattern is a NaN: all exponent bits set and a fraction that is
/// not zero.
pub open spec fn is_nan(bits: u32) -> bool {
    magnitude(bits) > INFINITY
}

/// Whether the pattern is `+0.0` or `-0.0`.
pub open spec fn is_zero(bits: u32) -> bool {
    magnitude(bits) == 0
}

/// Whether the pattern is a number other than an infinity.
pub open spec fn is_finite(bits: u32) -> bool {
    magnitude(bits) < INFINITY
}

/// The number that a pattern denotes, as a pattern. Patterns that are no NaN
/// denote themselves; all NaN patterns denote the same thing, `NAN`.
pub open spec fn value(bits: u32) -> u32 {
    if is_nan(bits) {
        NAN
    } else {
        bits
    }
}

/// The numbers that a sequence of patterns denotes.
pub open spec fn values(bits: Seq<u32>) -> Seq<u32> {
    Seq::new(bits.len(), |i: int| value(bits[i]))
}

/// Position of a pattern that is no NaN in the order of the numbers: the
/// magnitude, counted below zero where the sign bit is set. Both zeros have
/// rank 0, and a larger number has a larger rank.
pub open spec fn rank(bits: u32) -> int {
    if is_negative(bits) {
        -(magnitude(bits) as int)
    } else {
        magnitude(bits) as int
    }
}

/// `a <= b` as IEEE 754 defines it: false where either is a NaN.
pub open spec fn at_most(a: u32, b: u32) -> bool {
    !is_nan(a) && !is_nan(b) && rank(a) <= rank(b)
}

/// `a > b` as IEEE 754 defines it: false where either is a NaN.
pub open spec fn greater(a: u32, b: u32) -> bool {
    !is_nan(a) && !is_nan(b) && rank(a) > rank(b)
}

/// `a == b` as IEEE 754 defines it: false where either is a NaN, and true of
/// the two zeros.
pub open spec fn same_number(a: u32, b: u32) -> bool {
    !is_nan(a) && !is_nan(b) && rank(a) == rank(b)
}

/// The pattern of `-x` for the pattern of `x`: the sign bit flipped.
pub open spec fn negated(bits: u32) -> u32 {
    bits ^ SIGN_BIT
}

/// Twice the number is found by one step up of the exponent: the number is
/// a zero, or it is normal and its double is finite.
pub open spec fn doubles_exactly(bits: u32) -> bool {
    is_zero(bits) || 0x0080_0000 <= magnitude(bits) < 0x7F00_0000
}

/// Half the number is found by one step down of the exponent: the number is
/// a zero, or it is finite and its half is normal.
pub open spec fn halves_exactly(bits: u32) -> bool {
    is_zero(bits) || 0x0100_0000 <= magnitude(bits) < 0x7F80_0000
}

/// The pattern of `2 * x` for a pattern of `x` that doubles exactly: the
/// exponent one up, and a zero as it is.
pub open spec fn doubled(bits: u32) -> u32 {
    if is_zero(bits) {
        bits
    } else {
        (bits + 0x0080_0000) as u32
    }
}

/// The pattern of `0.5 * x` for a pattern of `x` that halves exactly: the
/// exponent one down, and a zero as it is.
pub open spec fn halved(bits: u32) -> u32 {
    if is_zero(bits) {
        bits
    } else {
        (bits - 0x0080_0000) as u32
    }
}

/// Tells whether a pattern is a NaN.
pub fn check_nan(bits: u32) -> (r: bool)
    ensures
        r == is_nan(bits),
{
    (bits & 0x7FFF_FFFF) > INFINITY
}

/// Computes the rank of a pattern.
pub fn rank_of(bits: u32) -> (r: i64)
    ensures
        r == rank(bits),
{
    let m: u32 = bits & 0x7FFF_FFFF;
    if bits >= SIGN_BIT {
        -(m as i64)
    } else {
        m as i64
    }
}

/// Decides `a <= b`.
pub fn is_at_most(a: u32, b: u32) -> (r: bool)
    ensures
        r == at_most(a, b),
{
    !check_nan(a) && !check_nan(b) && rank_of(a) <= rank_of(b)
}

/// Decides `a > b`.
pub fn is_greater(a: u32, b: u32) -> (r: bool)
    ensures
        r == greater(a, b),
{
    !check_nan(a) && !check_nan(b) && rank_of(a) > rank_of(b)
}

/// Negates a number by flipping the sign bit of its pattern.
pub fn negate(bits: u32) -> (r: u32)
    ensures
        r == negated(bits),
{
    bits ^ SIGN_BIT
}

/// A pattern and the number it denotes are NaN together and compare alike:
/// which pattern stands for a NaN makes no difference to a comparison.
pub proof fn lemma_value_keeps_order(a: u32, b: u32)
    ensures
        is_nan(value(a)) == is_nan(a),
        value(value(a)) == value(a),
        at_most(value(a), value(b)) == at_most(a, b),
        greater(value(a), value(b)) == greater(a, b),
{
    assert((0x7FC0_0000u32 & 0x7FFF_FFFF) > 0x7F80_0000u32) by (bit_vector);
}

/// The named constants are numbers and denote themselves, and `ZERO` is a
/// zero.
pub proof fn lemma_constants_denote_themselves()
    ensures
        is_zero(ZERO),
        value(ZERO) == ZERO,
        value(HALF) == HALF,
        value(ONE) == ONE,
        value(TWO) == TWO,
        value(MINUS_HALF) == MINUS_HALF,
        value(MINUS_TWO) == MINUS_TWO,
        value(INFINITY) == INFINITY,
        value(NAN) == NAN,
{
    assert(0x0000_0000u32 & 0x7FFF_FFFFu32 == 0x0000_0000u32) by (bit_vector);
    assert(0x3F00_0000u32 & 0x7FFF_FFFFu32 == 0x3F00_0000u32) by (bit_vector);
    assert(0x3F80_0000u32 & 0x7FFF_FFFFu32 == 0x3F80_0000u32) by (bit_vector);
    assert(0x4000_0000u32 & 0x7FFF_FFFFu32 == 0x4000_0000u32) by (bit_vector);
    assert(0x7F80_0000u32 & 0x7FFF_FFFFu32 == 0x7F80_0000u32) by (bit_vector);
    assert(0xBF00_0000u32 & 0x7FFF_FFFFu32 == 0x3F00_0000u32) by (bit_vector);
    assert(0xC000_0000u32 & 0x7FFF_FFFFu32 == 0x4000_0000u32) by (bit_vector);
}

/// Negating twice gives the pattern back, and negation mirrors the order:
/// it keeps NaN and zero what they are and turns the rank round.
pub proof fn lemma_negated(bits: u32)
    ensures
        negated(negated(bits)) == bits,
        is_nan(negated(bits)) == is_nan(bits),
        is_zero(negated(bits)) == is_zero(bits),
        rank(negated(bits)) == -rank(bits),
{
    assert((bits ^ 0x8000_0000u32) ^ 0x8000_0000u32 == bits) by (bit_vector);
    assert((bits ^ 0x8000_0000u32) & 0x7FFF_FFFFu32 == bits & 0x7FFF_FFFFu32) by (bit_vector);
    assert((bits ^ 0x8000_0000u32) >= 0x8000_0000u32 <==> !(bits >= 0x8000_0000u32)) by (bit_vector);
}

/// Two patterns that are equal as numbers are the same pattern, or both are
/// zeros.
pub proof fn lemma_same_number_patterns(a: u32, b: u32)
    requires
        same_number(a, b),
    ensures
        a == b || (is_zero(a) && is_zero(b)),
{
    assert((a & 0x7FFF_FFFFu32) == (b & 0x7FFF_FFFFu32) && ((a >= 0x8000_0000u32) == (b
        >= 0x8000_0000u32)) ==> a == b) by (bit_vector);
}

/// The half of a number that halves exactly doubles exactly, and its double
/// is the number. The same holds of the half negated: minus its double is
/// the number.
pub proof fn lemma_halved_then_doubled(bits: u32)
    requires
        halves_exactly(bits),
    ensures
        doubles_exactly(halved(bits)),
        doubled(halved(bits)) == bits,
        doubles_exactly(negated(halved(bits))),
        negated(doubled(negated(halved(bits)))) == bits,
        is_zero(halved(bits)) == is_zero(bits),
{
    let h = halved(bits);
    let g = negated(h);
    assert((bits & 0x7FFF_FFFFu32) == 0 ==> ((bits ^ 0x8000_0000u32) & 0x7FFF_FFFFu32) == 0 && (bits
        ^ 0x8000_0000u32) ^ 0x8000_0000u32 == bits) by (bit_vector);
    if !is_zero(bits) {
        assert(bits >= 0x0100_0000u32) by (bit_vector)
            requires
                (bits & 0x7FFF_FFFFu32) >= 0x0100_0000u32,
        ;
        assert((h & 0x7FFF_FFFFu32) == (bits & 0x7FFF_FFFFu32) - 0x0080_0000u32 && h <= 0xFFFF_FFFFu32
            - 0x0080_0000u32 && h + 0x0080_0000u32 == bits) by (bit_vector)
            requires
                (bits & 0x7FFF_FFFFu32) >= 0x0100_0000u32,
                (bits & 0x7FFF_FFFFu32) < 0x7F80_0000u32,
                h == (bits - 0x0080_0000u32) as u32,
        ;
        assert((g & 0x7FFF_FFFFu32) == (h & 0x7FFF_FFFFu32) && g <= 0xFFFF_FFFFu32 - 0x0080_0000u32
            && ((g + 0x0080_0000u32) as u32) ^ 0x8000_0000u32 == (h + 0x0080_0000u32) as u32)
            by (bit_vector)
            requires
                (h & 0x7FFF_FFFFu32) >= 0x0080_0000u32,
                (h & 0x7FFF_FFFFu32) < 0x7F00_0000u32,
                g == h ^ 0x8000_0000u32,
        ;
    }
}

} // verus!
