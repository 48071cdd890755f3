//! Decimal arithmetic, carried out by `rust_decimal`.
//!
//! [`decimal_add`], [`decimal_sub`] and [`decimal_lt`] are the only functions
//! of the crate whose contracts are taken on trust. Each one hands its
//! operands to `rust_decimal` with `Decimal::from_i128_with_scale`, which
//! accepts every well-formed amount, makes one call, and reads the result
//! back with `Decimal::mantissa` and `Decimal::scale`.

use crate::amount::{common_scale, in_range, lemma_aligned_value, pow10, Amount, MAX_SCALE};
use rust_decimal::Decimal;
use vstd::prelude::*;

verus! {

/// What `Decimal::checked_add` returns where the sum, written with the larger
/// scale of the two operands, needs more than 96 bits: the sum rounded to
/// fewer fractional digits, or `None` where even that does not fit.
pub uninterp spec fn rounded_sum(a: Amount, b: Amount) -> Option<Amount>;

/// What `Decimal::checked_sub` returns where the difference, written with the
/// larger scale of the two operands, needs more than 96 bits.
pub uninterp spec fn rounded_difference(a: Amount, b: Amount) -> Option<Amount>;

/// The mantissa of `a + b` at the larger scale of the two.
pub open spec fn sum_mantissa(a: Amount, b: Amount) -> int {
    a.aligned(common_scale(a, b)) + b.aligned(common_scale(a, b))
}

/// The mantissa of `a - b` at the larger scale of the two.
pub open spec fn difference_mantissa(a: Amount, b: Amount) -> int {
    a.aligned(common_scale(a, b)) - b.aligned(common_scale(a, b))
}

/// Whether `a + b` is computed without rounding: one operand is zero, or the
/// sum fits in 96 bits at the larger scale.
pub open spec fn sum_is_exact(a: Amount, b: Amount) -> bool {
    a.mantissa == 0 || b.mantissa == 0 || in_range(sum_mantissa(a, b))
}

/// Whether `a - b` is computed without rounding: one operand is zero, or the
/// difference fits in 96 bits at the larger scale.
pub open spec fn difference_is_exact(a: Amount, b: Amount) -> bool {
    a.mantissa == 0 || b.mantissa == 0 || in_range(difference_mantissa(a, b))
}

/// `a + b` as it is written where no rounding is needed: a zero operand
/// yields the other operand unchanged, and otherwise the result carries the
/// larger scale of the two.
pub open spec fn exact_sum(a: Amount, b: Amount) -> Amount {
    if a.mantissa == 0 {
        b
    } else if b.mantissa == 0 {
        a
    } else {
        Amount { mantissa: sum_mantissa(a, b) as i128, scale: common_scale(a, b) }
    }
}

/// `a - b` as it is written where no rounding is needed: a zero minuend
/// yields the negated subtrahend, a zero subtrahend the minuend, and
/// otherwise the result carries the larger scale of the two.
pub open spec fn exact_difference(a: Amount, b: Amount) -> Amount {
    if a.mantissa == 0 {
        Amount { mantissa: (-b.mantissa) as i128, scale: b.scale }
    } else if b.mantissa == 0 {
        a
    } else {
        Amount { mantissa: difference_mantissa(a, b) as i128, scale: common_scale(a, b) }
    }
}

/// The decimal sum `a + b`, or `None` on overflow.
pub open spec fn checked_sum(a: Amount, b: Amount) -> Option<Amount> {
    if sum_is_exact(a, b) {
        Some(exact_sum(a, b))
    } else {
        rounded_sum(a, b)
    }
}

/// The decimal difference `a - b`, or `None` on overflow.
pub open spec fn checked_difference(a: Amount, b: Amount) -> Option<Amount> {
    if difference_is_exact(a, b) {
        Some(exact_difference(a, b))
    } else {
        rounded_difference(a, b)
    }
}

/// Adds two decimals with `rust_decimal::Decimal::checked_add`.
///
/// Taken on trust:
/// - a zero operand makes the call return the other operand as it is
///   written;
/// - otherwise, where the sum fits in 96 bits at the larger of the two
///   scales, the call returns that sum at that scale;
/// - elsewhere the call rounds the sum or reports overflow, and its result
///   is known only as [`rounded_sum`];
/// - whatever the call returns has at most 96 bits and 28 fractional digits.
#[verifier::external_body]
pub(crate) fn decimal_add(a: Amount, b: Amount) -> (r: Option<Amount>)
    requires
        a.wf(),
        b.wf(),
    ensures
        sum_is_exact(a, b) ==> r == Some(exact_sum(a, b)),
        !sum_is_exact(a, b) ==> r == rounded_sum(a, b),
        r matches Some(c) ==> c.wf(),
{
    let x = Decimal::from_i128_with_scale(a.mantissa, a.scale);
    let y = Decimal::from_i128_with_scale(b.mantissa, b.scale);
    match x.checked_add(y) {
        Some(d) => Some(Amount { mantissa: d.mantissa(), scale: d.scale() }),
        None => None,
    }
}

/// Subtracts two decimals with `rust_decimal::Decimal::checked_sub`.
///
/// Taken on trust:
/// - a zero minuend makes the call return the negated subtrahend, and a zero
///   subtrahend the minuend, each as it is written;
/// - otherwise, where the difference fits in 96 bits at the larger of the
///   two scales, the call returns that difference at that scale;
/// - elsewhere the call rounds the difference or reports overflow, and its
///   result is known only as [`rounded_difference`];
/// - whatever the call returns has at most 96 bits and 28 fractional digits.
#[verifier::external_body]
pub(crate) fn decimal_sub(a: Amount, b: Amount) -> (r: Option<Amount>)
    requires
        a.wf(),
        b.wf(),
    ensures
        difference_is_exact(a, b) ==> r == Some(exact_difference(a, b)),
        !difference_is_exact(a, b) ==> r == rounded_difference(a, b),
        r matches Some(c) ==> c.wf(),
{
    let x = Decimal::from_i128_with_scale(a.mantissa, a.scale);
    let y = Decimal::from_i128_with_scale(b.mantissa, b.scale);
    match x.checked_sub(y) {
        Some(d) => Some(Amount { mantissa: d.mantissa(), scale: d.scale() }),
        None => None,
    }
}

/// Compares two decimals with `<` of `rust_decimal::Decimal`.
///
/// Taken on trust: `Decimal` orders by the number denoted, so that `0.50`
/// is less than `5` and `1.0` is not less than `1.00`: it compares the two
/// mantissas once both are written with the larger of the two scales.
#[verifier::external_body]
pub(crate) fn decimal_lt(a: Amount, b: Amount) -> (r: bool)
    requires
        a.wf(),
        b.wf(),
    ensures
        r == a.less_than(b),
{
    let x = Decimal::from_i128_with_scale(a.mantissa, a.scale);
    let y = Decimal::from_i128_with_scale(b.mantissa, b.scale);
    x < y
}

/// Where a sum needs no rounding, it is computed, it is representable and it
/// denotes the sum of the two numbers.
pub proof fn lemma_exact_sum(a: Amount, b: Amount)
    requires
        a.wf(),
        b.wf(),
        sum_is_exact(a, b),
    ensures
        checked_sum(a, b) == Some(exact_sum(a, b)),
        exact_sum(a, b).wf(),
        exact_sum(a, b).value() == a.value() + b.value(),
{
    if a.mantissa != 0 && b.mantissa != 0 {
        let scale = common_scale(a, b);
        let unit = pow10((MAX_SCALE - scale) as nat);
        lemma_aligned_value(a, scale);
        lemma_aligned_value(b, scale);
        assert((a.aligned(scale) + b.aligned(scale)) * unit == a.aligned(scale) * unit + b.aligned(
            scale,
        ) * unit) by (nonlinear_arith);
    }
}

/// Where a difference needs no rounding, it is computed, it is representable
/// and it denotes the difference of the two numbers.
pub proof fn lemma_exact_difference(a: Amount, b: Amount)
    requires
        a.wf(),
        b.wf(),
        difference_is_exact(a, b),
    ensures
        checked_difference(a, b) == Some(exact_difference(a, b)),
        exact_difference(a, b).wf(),
        exact_difference(a, b).value() == a.value() - b.value(),
{
    if a.mantissa == 0 {
        let unit = pow10((MAX_SCALE - b.scale) as nat);
        assert((-b.mantissa) * unit == -(b.mantissa * unit)) by (nonlinear_arith);
    } else if b.mantissa != 0 {
        let scale = common_scale(a, b);
        let unit = pow10((MAX_SCALE - scale) as nat);
        lemma_aligned_value(a, scale);
        lemma_aligned_value(b, scale);
        assert((a.aligned(scale) - b.aligned(scale)) * unit == a.aligned(scale) * unit - b.aligned(
            scale,
        ) * unit) by (nonlinear_arith);
    }
}

} // verus!
