//! Checked arithmetic on 64-bit amounts.
//!
//! Nothing here wraps, saturates or truncates: a result that does not fit
//! is reported as `None`, and so is a division by zero.

use vstd::prelude::*;

verus! {

/// `value * numerator / denominator`, rounded down, where the product fits
/// in 64 bits and the denominator is not zero.
pub open spec fn portion_of(value: u64, numerator: u64, denominator: u64) -> Option<u64> {
    if denominator == 0 || value * numerator > u64::MAX {
        None
    } else {
        Some((value * numerator / (denominator as int)) as u64)
    }
}

/// `total + amount`, where it fits in 64 bits.
pub open spec fn raised(total: u64, amount: u64) -> Option<u64> {
    if total + amount > u64::MAX {
        None
    } else {
        Some((total + amount) as u64)
    }
}

/// `total - amount`, where `amount` is not larger than `total`.
pub open spec fn lowered(total: u64, amount: u64) -> Option<u64> {
    if amount > total {
        None
    } else {
        Some((total - amount) as u64)
    }
}

/// The share `numerator / denominator` of `value`, rounded down.
///
/// The product is formed first, so the share is exact up to rounding; it is
/// refused with `None` when the product leaves the 64-bit range or the
/// denominator is zero.
pub fn portion(value: u64, numerator: u64, denominator: u64) -> (share: Option<u64>)
    ensures
        share == portion_of(value, numerator, denominator),
{
    match value.checked_mul(numerator) {
        None => None,
        Some(product) => product.checked_div(denominator),
    }
}

/// `total` raised by `amount`, refused with `None` on overflow.
pub fn raise(total: u64, amount: u64) -> (sum: Option<u64>)
    ensures
        sum == raised(total, amount),
{
    total.checked_add(amount)
}

/// `total` lowered by `amount`, refused with `None` on underflow.
pub fn lower(total: u64, amount: u64) -> (difference: Option<u64>)
    ensures
        difference == lowered(total, amount),
{
    total.checked_sub(amount)
}

/// A share taken with a numerator no larger than the denominator never
/// exceeds the value it is taken from.
pub proof fn lemma_portion_bounded(value: u64, numerator: u64, denominator: u64)
    requires
        numerator <= denominator,
    ensures
        portion_of(value, numerator, denominator) matches Some(share) ==> share <= value,
{
    if let Some(share) = portion_of(value, numerator, denominator) {
        let product = value * numerator;
        let d = denominator as int;
        assert(product <= value * d) by (nonlinear_arith)
            requires
                product == value * numerator,
                numerator <= d,
                0 <= value,
        ;
        assert(product / d <= value) by (nonlinear_arith)
            requires
                product <= value * d,
                d > 0,
        ;
    }
}

} // verus!
