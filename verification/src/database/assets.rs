//! Asset prices as stored.

use vstd::prelude::*;

use crate::decimal::Amount;

verus! {

/// An asset with its latest USD price.
#[derive(Debug)]
pub struct AssetRecord {
    pub name: String,
    pub symbol: String,
    pub price: Amount,
}

/// The mathematical view of an [`AssetRecord`].
pub struct AssetRecordView {
    pub name: Seq<char>,
    pub symbol: Seq<char>,
    pub price: Amount,
}

impl View for AssetRecord {
    type V = AssetRecordView;

    open spec fn view(&self) -> AssetRecordView {
        AssetRecordView { name: self.name@, symbol: self.symbol@, price: self.price }
    }
}

/// Whether a batch of records needs a write at all: an empty batch is skipped.
pub fn needs_upsert(records: &Vec<AssetRecord>) -> (r: bool)
    ensures
        r == (records.len() > 0),
{
    records.len() > 0
}

} // verus!
