//! Percentages of signed amounts.

use vstd::prelude::*;

verus! {

/// A hundredth of `amount`, rounded toward zero.
pub open spec fn hundredth(amount: int) -> int {
    if amount >= 0 {
        amount / 100
    } else {
        -((-amount) / 100)
    }
}

/// `percent` hundredths of `amount`, rounded toward zero.
pub open spec fn percent_of(amount: i128, percent: u32) -> int {
    hundredth(amount * percent)
}

/// Whether `amount` times `percent` can be written down as an `i128`.
pub open spec fn percent_computable(amount: i128, percent: u32) -> bool {
    i128::MIN <= amount * percent <= i128::MAX
}

/// `percent` hundredths of `amount`, rounded toward zero; `None` where the product
/// leaves `i128`.
pub fn checked_percent(amount: i128, percent: u32) -> (part: Option<i128>)
    ensures
        percent_computable(amount, percent) ==> part == Some(percent_of(amount, percent) as i128),
        !percent_computable(amount, percent) ==> part is None,
{
    match amount.checked_mul(percent as i128) {
        Some(product) => product.checked_div(100),
        None => None,
    }
}

} // verus!
