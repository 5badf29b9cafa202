//! `GET /prices/{symbol}`: the latest price of one asset.

use vstd::prelude::*;
use vstd::string::*;

use crate::database::assets::AssetRecord;
use crate::decimal::decimal_text;
use crate::market::exception::{HttpException, HttpExceptionView};
use crate::text::{to_lowercase, unicode_lowercase};

verus! {

/// The answer for one asset.
#[derive(Debug)]
pub struct Response {
    pub symbol: String,
    pub name: String,
    pub price: String,
}

/// Symbols are stored lowercase (as CoinGecko gives them), so the path
/// parameter is lowercased before the lookup.
pub fn lookup_symbol(path_symbol: &str) -> (r: String)
    ensures
        r@ == unicode_lowercase(path_symbol@),
{
    to_lowercase(path_symbol)
}

/// Answers with the asset found under `symbol`, or "not found" naming the symbol.
pub fn price_response(symbol: &str, found: Option<AssetRecord>) -> (r: Result<Response, HttpException>)
    requires
        found matches Some(a) ==> a.price.wf(),
    ensures
        match r {
            Ok(resp) => found matches Some(a) && resp.symbol@ == a.symbol@ && resp.name@ == a.name@ && resp.price@
                == decimal_text(a.price@),
            Err(e) => found is None && e@ == HttpExceptionView::NotFound("symbol not found: "@ + symbol@),
        },
{
    match found {
        None => {
            let msg = String::from_str("symbol not found: ").concat(symbol);
            Err(HttpException::NotFound { msg })
        },
        Some(a) => {
            let price = a.price.to_text();
            Ok(Response { symbol: a.symbol, name: a.name, price })
        },
    }
}

} // verus!
