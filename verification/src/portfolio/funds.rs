//! Depositing cash (a testing-only top-up).

use vstd::prelude::*;

use crate::decimal::{amount_of, decimal_add, decimal_parse, decimal_text, parse, value_lt, Amount};
use crate::portfolio::exception::{HttpException, HttpExceptionView};
use crate::text::{trim, trim_spec};

verus! {

/// The body of `POST /funds/deposit`.
#[derive(Debug)]
pub struct DepositRequest {
    pub amount: String,
}

/// The answer to a deposit: the new cash balance.
#[derive(Debug)]
pub struct DepositResponse {
    pub cash_balance: String,
}

/// The amount of a deposit: the trimmed text, which must be a positive decimal number.
pub open spec fn deposit_amount_check(raw: Seq<char>) -> Result<Amount, HttpExceptionView> {
    match decimal_parse(trim_spec(raw)) {
        Err(_) => Err(HttpExceptionView::BadRequest("amount must be a valid number"@)),
        Ok(a) => if !value_lt((0int, 0nat), a) {
            Err(HttpExceptionView::BadRequest("amount must be greater than 0"@))
        } else {
            Ok(amount_of(a))
        },
    }
}

/// Checks the amount of a deposit request.
pub fn parse_deposit_amount(req: &DepositRequest) -> (r: Result<Amount, HttpException>)
    ensures
        match r {
            Ok(a) => deposit_amount_check(req.amount@) == Ok::<Amount, HttpExceptionView>(a) && a.wf(),
            Err(e) => deposit_amount_check(req.amount@) == Err::<Amount, HttpExceptionView>(e@),
        },
{
    let text = trim(req.amount.as_str());
    match parse(text.as_str()) {
        Err(_) => Err(HttpException::bad_request("amount must be a valid number")),
        Ok(a) => {
            if !Amount::zero().less_than(a) {
                Err(HttpException::bad_request("amount must be greater than 0"))
            } else {
                proof {
                    crate::decimal::lemma_amount_of_view(a);
                }
                Ok(a)
            }
        },
    }
}

/// The cash balance after a deposit, given the balance read from the locked
/// user row (`None` where there is no such user).
pub open spec fn deposit_balance(cash: Option<Amount>, amount: Amount) -> Result<Amount, HttpExceptionView> {
    match cash {
        None => Err(HttpExceptionView::Internal("user not found"@)),
        Some(c) => match decimal_add(c@, amount@) {
            None => Err(HttpExceptionView::Internal("cash balance overflow"@)),
            Some(n) => Ok(amount_of(n)),
        },
    }
}

/// Credits a deposit: the new balance is the old one plus the amount.
pub fn credit_deposit(cash: Option<Amount>, amount: Amount) -> (r: Result<Amount, HttpException>)
    requires
        cash matches Some(c) ==> c.wf(),
        amount.wf(),
    ensures
        match r {
            Ok(n) => deposit_balance(cash, amount) == Ok::<Amount, HttpExceptionView>(n) && n.wf() && (cash matches Some(
                c,
            ) && decimal_add(c@, amount@) == Some(n@)),
            Err(e) => deposit_balance(cash, amount) == Err::<Amount, HttpExceptionView>(e@),
        },
{
    match cash {
        None => Err(HttpException::internal("user not found")),
        Some(c) => match c.checked_add(amount) {
            None => Err(HttpException::internal("cash balance overflow")),
            Some(n) => {
                proof {
                    crate::decimal::lemma_amount_of_view(n);
                }
                Ok(n)
            },
        },
    }
}

/// The answer to a deposit, showing the new balance.
pub fn deposit_response(balance: Amount) -> (r: DepositResponse)
    requires
        balance.wf(),
    ensures
        r.cash_balance@ == decimal_text(balance@),
{
    DepositResponse { cash_balance: balance.to_text() }
}

/// A deposit amount is accepted exactly when its trimmed text parses to a
/// positive number, and then it is that number; a text that does not parse is
/// refused as not a valid number, and a number of zero or less as not positive.
pub proof fn law_deposit_amount(raw: Seq<char>)
    ensures
        deposit_amount_check(raw) is Ok <==> (decimal_parse(trim_spec(raw)) is Ok && decimal_parse(
            trim_spec(raw),
        )->Ok_0.0 > 0),
        decimal_parse(trim_spec(raw)) matches Ok(v) ==> (v.0 > 0 ==> deposit_amount_check(raw) == Ok::<
            Amount,
            HttpExceptionView,
        >(amount_of(v))),
        decimal_parse(trim_spec(raw)) matches Ok(v) ==> (v.0 <= 0 ==> deposit_amount_check(raw) == Err::<
            Amount,
            HttpExceptionView,
        >(HttpExceptionView::BadRequest("amount must be greater than 0"@))),
        decimal_parse(trim_spec(raw)) is Err ==> deposit_amount_check(raw) == Err::<Amount, HttpExceptionView>(
            HttpExceptionView::BadRequest("amount must be a valid number"@),
        ),
{
}

/// A deposit is credited exactly when the user exists and adding the amount
/// to the balance does not overflow, and the new balance is that sum; an
/// unknown user and an overflow are internal errors.
pub proof fn law_deposit_balance(cash: Option<Amount>, amount: Amount)
    ensures
        deposit_balance(cash, amount) is Ok <==> (cash matches Some(c) && decimal_add(c@, amount@) is Some),
        cash matches Some(c) ==> (decimal_add(c@, amount@) matches Some(x) ==> deposit_balance(cash, amount) == Ok::<
            Amount,
            HttpExceptionView,
        >(amount_of(x))),
        cash matches Some(c) ==> (decimal_add(c@, amount@) is None ==> deposit_balance(cash, amount) == Err::<
            Amount,
            HttpExceptionView,
        >(HttpExceptionView::Internal("cash balance overflow"@))),
        cash is None ==> deposit_balance(cash, amount) == Err::<Amount, HttpExceptionView>(
            HttpExceptionView::Internal("user not found"@),
        ),
{
}

} // verus!
