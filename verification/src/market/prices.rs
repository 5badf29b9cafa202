//! `GET /prices`: every tracked asset with its latest price.

use vstd::prelude::*;

use crate::database::assets::AssetRecord;
use crate::decimal::decimal_text;

verus! {

/// One asset of the listing.
#[derive(Debug)]
pub struct Price {
    pub symbol: String,
    pub name: String,
    pub price: String,
}

/// The listing.
#[derive(Debug)]
pub struct Response {
    pub prices: Vec<Price>,
}

/// Lists every asset with its price as text, in the order they were read.
pub fn prices_response(assets: Vec<AssetRecord>) -> (r: Response)
    requires
        forall|i: int| 0 <= i < assets.len() ==> (#[trigger] assets[i]).price.wf(),
    ensures
        r.prices.len() == assets.len(),
        forall|i: int|
            0 <= i < assets.len() ==> (#[trigger] r.prices[i]).symbol@ == assets[i].symbol@ && r.prices[i].name@
                == assets[i].name@ && r.prices[i].price@ == decimal_text(assets[i].price@),
{
    let mut prices: Vec<Price> = Vec::new();
    let n: usize = assets.len();
    let mut i: usize = 0;
    while i < n
        invariant
            n == assets.len(),
            i <= n,
            prices.len() == i,
            forall|j: int| 0 <= j < assets.len() ==> (#[trigger] assets[j]).price.wf(),
            forall|j: int|
                0 <= j < i ==> (#[trigger] prices[j]).symbol@ == assets[j].symbol@ && prices[j].name@
                    == assets[j].name@ && prices[j].price@ == decimal_text(assets[j].price@),
        decreases n - i,
    {
        let a = &assets[i];
        prices.push(Price { symbol: a.symbol.clone(), name: a.name.clone(), price: a.price.to_text() });
        i = i + 1;
    }
    Response { prices }
}

} // verus!
