//! `GET /symbols`: every tracked asset symbol.

use vstd::prelude::*;

use crate::database::assets::AssetRecord;

verus! {

/// The symbols.
#[derive(Debug)]
pub struct Response {
    pub symbols: Vec<String>,
}

/// Lists the symbol of every asset, in the order they were read.
pub fn symbols_response(assets: Vec<AssetRecord>) -> (r: Response)
    ensures
        r.symbols.len() == assets.len(),
        forall|i: int| 0 <= i < assets.len() ==> (#[trigger] r.symbols[i])@ == assets[i].symbol@,
{
    let mut symbols: Vec<String> = Vec::new();
    let n: usize = assets.len();
    let mut i: usize = 0;
    while i < n
        invariant
            n == assets.len(),
            i <= n,
            symbols.len() == i,
            forall|j: int| 0 <= j < i ==> (#[trigger] symbols[j])@ == assets[j].symbol@,
        decreases n - i,
    {
        symbols.push(assets[i].symbol.clone());
        i = i + 1;
    }
    Response { symbols }
}

} // verus!
