//! Updating asset balances.

use vstd::prelude::*;

use crate::decimal::{amount_of, decimal_add, decimal_sub, value_lt, Amount};

verus! {

/// How a user's balance of one asset is written.
#[derive(Clone, Copy, Debug, PartialEq, Eq, Structural)]
pub enum BalanceWrite {
    /// Overwrite the existing balance with this quantity.
    Update(Amount),
    /// Create the balance with this quantity.
    Insert(Amount),
    /// Leave the balances as they are.
    Keep,
}

/// The write that adds `delta` to a balance: the sum where there is a
/// balance, a new balance of `delta` where there is none, and `None` where
/// the sum overflows (the request is then aborted, as `Decimal`'s `+` panics).
pub open spec fn add_plan(existing: Option<Amount>, delta: Amount) -> Option<BalanceWrite> {
    match existing {
        None => Some(BalanceWrite::Insert(delta)),
        Some(q) => match decimal_add(q@, delta@) {
            Some(n) => Some(BalanceWrite::Update(amount_of(n))),
            None => None,
        },
    }
}

/// The write that subtracts `delta` from a balance: the difference where
/// there is a balance, nothing where there is none, and `None` where the
/// difference overflows (the request is then aborted, as `Decimal`'s `-` panics).
pub open spec fn sub_plan(existing: Option<Amount>, delta: Amount) -> Option<BalanceWrite> {
    match existing {
        None => Some(BalanceWrite::Keep),
        Some(q) => match decimal_sub(q@, delta@) {
            Some(n) => Some(BalanceWrite::Update(amount_of(n))),
            None => None,
        },
    }
}

/// Plans adding `delta` to the balance read for the user and symbol. Adding a
/// non-negative quantity to a non-negative balance keeps it non-negative.
pub fn add_quantity_plan(existing: Option<Amount>, delta: Amount) -> (r: Option<BalanceWrite>)
    requires
        existing matches Some(q) ==> q.wf(),
        delta.wf(),
    ensures
        r == add_plan(existing, delta),
        r matches Some(BalanceWrite::Update(n)) ==> (existing matches Some(q) && decimal_add(q@, delta@) == Some(n@)),
        r matches Some(BalanceWrite::Insert(n)) ==> existing is None && n == delta,
        (existing matches Some(q) ==> q@.0 >= 0) && delta@.0 >= 0 ==> match r {
            Some(BalanceWrite::Update(n)) => n@.0 >= 0,
            Some(BalanceWrite::Insert(n)) => n@.0 >= 0,
            _ => true,
        },
{
    match existing {
        None => Some(BalanceWrite::Insert(delta)),
        Some(q) => match q.checked_add(delta) {
            Some(n) => {
                proof {
                    crate::decimal::lemma_amount_of_view(n);
                }
                Some(BalanceWrite::Update(n))
            },
            None => None,
        },
    }
}

/// Plans subtracting `delta` from the balance read for the user and symbol.
/// Subtracting at most what is held leaves a non-negative balance.
pub fn sub_quantity_plan(existing: Option<Amount>, delta: Amount) -> (r: Option<BalanceWrite>)
    requires
        existing matches Some(q) ==> q.wf(),
        delta.wf(),
    ensures
        r == sub_plan(existing, delta),
        r matches Some(BalanceWrite::Update(n)) ==> (existing matches Some(q) && decimal_sub(q@, delta@) == Some(n@)),
        existing matches Some(q) ==> (q@.0 >= 0 && delta@.0 >= 0 && !value_lt(q@, delta@) ==> r is Some),
        existing matches Some(q) && !value_lt(q@, delta@) ==> (r matches Some(BalanceWrite::Update(n)) ==> n@.0 >= 0),
{
    match existing {
        None => Some(BalanceWrite::Keep),
        Some(q) => match q.checked_sub(delta) {
            Some(n) => {
                proof {
                    crate::decimal::lemma_amount_of_view(n);
                }
                Some(BalanceWrite::Update(n))
            },
            None => None,
        },
    }
}

/// Adding to a balance creates it with the quantity where there is none, and
/// otherwise overwrites it with the sum (nothing where the sum overflows).
/// Subtracting from a balance leaves a missing balance missing, and otherwise
/// overwrites it with the difference (nothing where it overflows).
pub proof fn law_balance_plans(existing: Option<Amount>, delta: Amount)
    ensures
        existing is None ==> add_plan(existing, delta) == Some(BalanceWrite::Insert(delta)),
        existing is None ==> sub_plan(existing, delta) == Some(BalanceWrite::Keep),
        existing matches Some(q) ==> (decimal_add(q@, delta@) matches Some(x) ==> add_plan(existing, delta) == Some(
            BalanceWrite::Update(amount_of(x)),
        )),
        existing matches Some(q) ==> (decimal_add(q@, delta@) is None ==> add_plan(existing, delta) is None),
        existing matches Some(q) ==> (decimal_sub(q@, delta@) matches Some(x) ==> sub_plan(existing, delta) == Some(
            BalanceWrite::Update(amount_of(x)),
        )),
        existing matches Some(q) ==> (decimal_sub(q@, delta@) is None ==> sub_plan(existing, delta) is None),
{
}

} // verus!
