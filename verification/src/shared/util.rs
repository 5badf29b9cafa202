//! Checked arithmetic on amounts.

use vstd::prelude::*;

use crate::decimal::{decimal_mul, Amount};
use crate::shared::result::{AppErr, AppErrView};

verus! {

/// `price * quantity`, or the error "value is too large" where `rust_decimal`
/// overflows.
pub fn checked_mul(price: Amount, quantity: Amount) -> (r: Result<Amount, AppErr>)
    requires
        price.wf(),
        quantity.wf(),
    ensures
        match r {
            Ok(x) => decimal_mul(price@, quantity@) == Some(x@) && x.wf(),
            Err(e) => decimal_mul(price@, quantity@) is None && e@ == AppErrView::Custom(
                "value is too large"@,
            ),
        },
{
    match price.checked_mul(quantity) {
        Some(x) => Ok(x),
        None => Err(AppErr::custom("value is too large")),
    }
}

} // verus!
