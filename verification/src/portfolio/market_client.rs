//! Reading prices from the market service.

use vstd::prelude::*;
use vstd::string::*;

use crate::decimal::{decimal_parse, parse, Amount};
use crate::text::{strip_trailing_slashes, to_lowercase, trim_trailing_slashes, unicode_lowercase};

verus! {

/// Why a price lookup against the market service failed.
#[derive(Clone, Copy, Debug, PartialEq, Eq, Structural)]
pub enum PriceError {
    /// The market service could not be reached or returned an unexpected status.
    Unavailable,
    /// The symbol is unknown to the market service (HTTP 404) or its price is unparseable.
    InvalidSymbol,
}

/// The address of `GET /prices/{symbol}` under the market service's base address.
pub open spec fn price_url_spec(base_url: Seq<char>, symbol: Seq<char>) -> Seq<char> {
    strip_trailing_slashes(base_url) + "/prices/"@ + unicode_lowercase(symbol)
}

/// Builds the address of a symbol's price: the base address without trailing
/// slashes, `/prices/`, and the lowercase symbol.
pub fn price_url(base_url: &str, symbol: &str) -> (r: String)
    ensures
        r@ == price_url_spec(base_url@, symbol@),
{
    let base = trim_trailing_slashes(base_url);
    let lower = to_lowercase(symbol);
    let r = base.concat("/prices/").concat(lower.as_str());
    proof {
        assert(r@ =~= price_url_spec(base_url@, symbol@));
    }
    r
}

/// Whether an HTTP status is a success (2xx).
pub open spec fn is_success(status: u16) -> bool {
    200 <= status <= 299
}

/// The outcome of a price lookup, from what the market service answered:
/// `status` is `None` when the request could not be sent, and `body_price`
/// is the `price` field of the JSON body, `None` when the body did not read.
pub open spec fn price_outcome(status: Option<u16>, body_price: Option<Seq<char>>) -> Result<(int, nat), PriceError> {
    match status {
        None => Err(PriceError::Unavailable),
        Some(s) => if s == 404 {
            Err(PriceError::InvalidSymbol)
        } else if !is_success(s) {
            Err(PriceError::Unavailable)
        } else {
            match body_price {
                None => Err(PriceError::Unavailable),
                Some(t) => match decimal_parse(t) {
                    Ok(v) => Ok(v),
                    Err(_) => Err(PriceError::InvalidSymbol),
                },
            }
        },
    }
}

/// The view of an optional text.
pub open spec fn text_of(t: Option<&str>) -> Option<Seq<char>> {
    match t {
        Some(x) => Some(x@),
        None => None,
    }
}

/// Decides the price of a lookup from the market service's answer.
pub fn classify_price_reply(status: Option<u16>, body_price: Option<&str>) -> (r: Result<Amount, PriceError>)
    ensures
        match r {
            Ok(p) => p.wf() && price_outcome(status, text_of(body_price)) == Ok::<(int, nat), PriceError>(p@),
            Err(e) => price_outcome(status, text_of(body_price)) == Err::<(int, nat), PriceError>(e),
        },
{
    match status {
        None => Err(PriceError::Unavailable),
        Some(s) => {
            if s == 404 {
                Err(PriceError::InvalidSymbol)
            } else if !(200 <= s && s <= 299) {
                Err(PriceError::Unavailable)
            } else {
                match body_price {
                    None => Err(PriceError::Unavailable),
                    Some(t) => match parse(t) {
                        Ok(p) => Ok(p),
                        Err(_) => Err(PriceError::InvalidSymbol),
                    },
                }
            }
        },
    }
}

/// How the market service's answer decides a price: an unreachable service,
/// and any status other than 404 that is not a success, mean the service is
/// unavailable, whatever the body; 404 means the symbol is unknown; a success
/// gives the parsed `price` of the body, an unknown symbol where it does not
/// parse, and an unavailable service where the body does not read.
pub proof fn law_price_outcome(status: Option<u16>, body_price: Option<Seq<char>>)
    ensures
        status is None ==> price_outcome(status, body_price) == Err::<(int, nat), PriceError>(PriceError::Unavailable),
        status == Some(404u16) ==> price_outcome(status, body_price) == Err::<(int, nat), PriceError>(
            PriceError::InvalidSymbol,
        ),
        status matches Some(s) ==> (s != 404 && !(200 <= s && s <= 299) ==> price_outcome(status, body_price)
            == Err::<(int, nat), PriceError>(PriceError::Unavailable)),
        status matches Some(s) ==> (200 <= s && s <= 299 && body_price is None ==> price_outcome(status, body_price)
            == Err::<(int, nat), PriceError>(PriceError::Unavailable)),
        status matches Some(s) ==> (200 <= s && s <= 299 ==> (body_price matches Some(t) ==> (decimal_parse(t) matches Ok(v)
            ==> price_outcome(status, body_price) == Ok::<(int, nat), PriceError>(v)))),
        status matches Some(s) ==> (200 <= s && s <= 299 ==> (body_price matches Some(t) ==> (decimal_parse(t) is Err
            ==> price_outcome(status, body_price) == Err::<(int, nat), PriceError>(PriceError::InvalidSymbol)))),
{
}

} // verus!
