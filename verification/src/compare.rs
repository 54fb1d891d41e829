//! Comparison outcomes: of two real numbers within a tolerance, as decided
//! from what floating-point arithmetic says of them, and of two texts.

use vstd::prelude::*;
use vstd::utf8::*;
use crate::text::{byte_order, order_bytes, text_equal, text_matches};

verus! {

/// Code of a left side that is less than the right side.
pub const LESS: i32 = -1;

/// Code of two sides that are equal.
pub const EQUAL: i32 = 0;

/// Code of a left side that is greater than the right side.
pub const GREATER: i32 = 1;

/// Code of two sides that cannot be compared.
pub const NOT_COMPARABLE: i32 = 2147483647;

/// Code of a condition that holds.
pub const TRUE: i32 = 1;

/// Code of a condition that does not hold.
pub const FALSE: i32 = 0;

/// How two real numbers compare within a tolerance.
#[derive(Debug, Clone, Copy, PartialEq, Eq, Structural)]
pub enum Comparison {
    Less,
    Equal,
    Greater,
    Incomparable,
}

/// What kind of number a floating-point value is.
#[derive(Debug, Clone, Copy, PartialEq, Eq, Structural)]
pub enum FloatClass {
    Nan,
    NegativeInfinity,
    PositiveInfinity,
    Finite,
}

/// How the difference of the left and the right side stands to the tolerance.
#[derive(Debug, Clone, Copy, PartialEq, Eq, Structural)]
pub enum Difference {
    /// Its absolute value is at most the absolute value of the tolerance.
    Within,
    /// It is beyond the tolerance and negative.
    Below,
    /// It is beyond the tolerance and not negative.
    Above,
}

/// The outcome of a tolerant comparison. A NaN on either side compares with
/// nothing. Infinities of one sign are equal. Everything else goes by the
/// difference of the two sides.
pub open spec fn comparison(lhs: FloatClass, rhs: FloatClass, difference: Difference) -> Comparison {
    if lhs is Nan || rhs is Nan {
        Comparison::Incomparable
    } else if (lhs is PositiveInfinity && rhs is PositiveInfinity) || (lhs is NegativeInfinity
        && rhs is NegativeInfinity) {
        Comparison::Equal
    } else {
        match difference {
            Difference::Within => Comparison::Equal,
            Difference::Below => Comparison::Less,
            Difference::Above => Comparison::Greater,
        }
    }
}

/// The integer code of a comparison's outcome.
pub open spec fn code_of(c: Comparison) -> i32 {
    match c {
        Comparison::Less => LESS,
        Comparison::Equal => EQUAL,
        Comparison::Greater => GREATER,
        Comparison::Incomparable => NOT_COMPARABLE,
    }
}

/// Decides a tolerant comparison from the kinds of the two sides and from how
/// their difference stands to the tolerance.
pub fn compare_classified(lhs: FloatClass, rhs: FloatClass, difference: Difference) -> (c:
    Comparison)
    ensures
        c == comparison(lhs, rhs, difference),
        lhs is Nan || rhs is Nan ==> c is Incomparable,
        lhs == rhs && (lhs is PositiveInfinity || lhs is NegativeInfinity) ==> c is Equal,
        lhs is Finite && rhs is Finite ==> (c is Equal <==> difference is Within),
        c is Equal ==> !(lhs is Nan) && !(rhs is Nan),
{
    match (lhs, rhs) {
        (FloatClass::Nan, _) => Comparison::Incomparable,
        (_, FloatClass::Nan) => Comparison::Incomparable,
        (FloatClass::PositiveInfinity, FloatClass::PositiveInfinity) => Comparison::Equal,
        (FloatClass::NegativeInfinity, FloatClass::NegativeInfinity) => Comparison::Equal,
        _ => match difference {
            Difference::Within => Comparison::Equal,
            Difference::Below => Comparison::Less,
            Difference::Above => Comparison::Greater,
        },
    }
}

/// The integer code of a comparison's outcome: -1, 0, 1, or the largest
/// 32-bit integer where the two sides cannot be compared.
pub fn comparison_code(c: Comparison) -> (code: i32)
    ensures
        code == code_of(c),
{
    match c {
        Comparison::Less => LESS,
        Comparison::Equal => EQUAL,
        Comparison::Greater => GREATER,
        Comparison::Incomparable => NOT_COMPARABLE,
    }
}

/// Whether a value passes that is expected to equal another within a
/// tolerance: only an outcome of equal passes.
pub fn passes_float_eq(c: Comparison) -> (pass: bool)
    ensures
        pass == (c is Equal),
{
    match c {
        Comparison::Equal => true,
        _ => false,
    }
}

/// Whether a value passes that is expected to differ from another beyond a
/// tolerance: every outcome but equal passes, incomparable too.
pub fn passes_float_ne(c: Comparison) -> (pass: bool)
    ensures
        pass == !(c is Equal),
{
    match c {
        Comparison::Equal => false,
        _ => true,
    }
}

/// A NaN on either side compares with nothing, whatever the other side and
/// the tolerance are.
pub proof fn lemma_nan_is_incomparable(other: FloatClass, difference: Difference)
    ensures
        comparison(FloatClass::Nan, other, difference) == Comparison::Incomparable,
        comparison(other, FloatClass::Nan, difference) == Comparison::Incomparable,
{
}

/// Infinities of one sign are equal, whatever the tolerance is and whatever
/// arithmetic says of their difference.
pub proof fn lemma_infinities_of_one_sign_are_equal(difference: Difference)
    ensures
        comparison(FloatClass::PositiveInfinity, FloatClass::PositiveInfinity, difference)
            == Comparison::Equal,
        comparison(FloatClass::NegativeInfinity, FloatClass::NegativeInfinity, difference)
            == Comparison::Equal,
{
}

/// Two sides of which neither is a NaN and which are not infinities of one
/// sign are equal exactly where their difference is within the tolerance,
/// and otherwise ordered by the sign of the difference.
pub proof fn lemma_equal_iff_within(lhs: FloatClass, rhs: FloatClass, difference: Difference)
    requires
        !(lhs is Nan),
        !(rhs is Nan),
        lhs is Finite || rhs is Finite || lhs != rhs,
    ensures
        comparison(lhs, rhs, difference) == Comparison::Equal <==> difference is Within,
        comparison(lhs, rhs, difference) == Comparison::Less <==> difference is Below,
        comparison(lhs, rhs, difference) == Comparison::Greater <==> difference is Above,
{
}

/// The codes of different outcomes differ.
pub proof fn lemma_codes_are_distinct(a: Comparison, b: Comparison)
    ensures
        code_of(a) == code_of(b) <==> a == b,
{
}

/// The order of two texts by their bytes, as a code: -1, 0 or 1.
pub fn wave_cmp_str(actual: &str, expected: &str) -> (code: i32)
    ensures
        code == byte_order(encode_utf8(actual@), encode_utf8(expected@)),
        code == LESS || code == EQUAL || code == GREATER,
        code == EQUAL <==> actual@ == expected@,
{
    proof {
        crate::text::lemma_byte_order_zero_iff_equal(encode_utf8(actual@), encode_utf8(expected@));
        crate::text::lemma_text_equal_iff_bytes_equal(actual@, expected@);
    }
    order_bytes(actual.as_bytes(), expected.as_bytes())
}

/// Whether two texts are equal, with or without regard to the case of ASCII
/// letters, as a code: 1 where they are, 0 where they are not.
pub fn wave_cmp_str_eq(actual: &str, expected: &str, ignore_case: bool) -> (code: i32)
    ensures
        code == (if text_matches(actual@, expected@, ignore_case) {
            TRUE
        } else {
            FALSE
        }),
{
    if text_equal(actual, expected, ignore_case) {
        TRUE
    } else {
        FALSE
    }
}

} // verus!
