//! Turning CoinGecko's market listing into asset records.

use vstd::prelude::*;
use vstd::string::*;

use crate::database::assets::{AssetRecord, AssetRecordView};
use crate::decimal::{amount_of, decimal_parse, parse};
use crate::shared::result::{AppErr, AppErrView};

verus! {

/// One entry of CoinGecko's `coins/markets` listing: the name, the symbol,
/// and the current USD price as the text of its JSON number.
#[derive(Debug)]
pub struct CoinGeckoMarket {
    pub name: String,
    pub symbol: String,
    pub current_price: String,
}

/// The mathematical view of a [`CoinGeckoMarket`].
pub struct CoinGeckoMarketView {
    pub name: Seq<char>,
    pub symbol: Seq<char>,
    pub current_price: Seq<char>,
}

impl View for CoinGeckoMarket {
    type V = CoinGeckoMarketView;

    open spec fn view(&self) -> CoinGeckoMarketView {
        CoinGeckoMarketView { name: self.name@, symbol: self.symbol@, current_price: self.current_price@ }
    }
}

/// The record of one listing entry, or the error naming the entry whose price
/// does not parse.
pub open spec fn market_record(m: CoinGeckoMarketView) -> Result<AssetRecordView, AppErrView> {
    match decimal_parse(m.current_price) {
        Ok(p) => Ok(AssetRecordView { name: m.name, symbol: m.symbol, price: amount_of(p) }),
        Err(t) => Err(AppErrView::Custom("failed to parse CoinGecko price for "@ + m.name + ": "@ + t)),
    }
}

/// The records of a listing, in order, or the error of its first bad entry.
pub open spec fn market_records(ms: Seq<CoinGeckoMarketView>) -> Result<Seq<AssetRecordView>, AppErrView>
    decreases ms.len(),
{
    if ms.len() == 0 {
        Ok(Seq::empty())
    } else {
        match market_records(ms.drop_last()) {
            Err(e) => Err(e),
            Ok(rs) => match market_record(ms.last()) {
                Err(e) => Err(e),
                Ok(r) => Ok(rs.push(r)),
            },
        }
    }
}

/// The views of the records.
pub open spec fn records_view(rs: Seq<AssetRecord>) -> Seq<AssetRecordView> {
    rs.map_values(|r: AssetRecord| r@)
}

/// The views of the listing entries.
pub open spec fn markets_view(ms: Seq<CoinGeckoMarket>) -> Seq<CoinGeckoMarketView> {
    ms.map_values(|m: CoinGeckoMarket| m@)
}

/// Converts a CoinGecko listing into asset records, stopping at the first
/// entry whose price does not parse.
pub fn to_asset_records(markets: Vec<CoinGeckoMarket>) -> (r: Result<Vec<AssetRecord>, AppErr>)
    ensures
        match r {
            Ok(rs) => market_records(markets_view(markets@)) == Ok::<Seq<AssetRecordView>, AppErrView>(
                records_view(rs@),
            ) && forall|i: int| 0 <= i < rs.len() ==> (#[trigger] rs[i]).price.wf(),
            Err(e) => market_records(markets_view(markets@)) == Err::<Seq<AssetRecordView>, AppErrView>(e@),
        },
{
    let ghost ms = markets_view(markets@);
    let mut out: Vec<AssetRecord> = Vec::new();
    let n: usize = markets.len();
    let mut i: usize = 0;
    proof {
        assert(records_view(out@) =~= Seq::<AssetRecordView>::empty());
        assert(ms.take(0) =~= Seq::<CoinGeckoMarketView>::empty());
    }
    while i < n
        invariant
            n == markets.len(),
            ms == markets_view(markets@),
            i <= n,
            market_records(ms.take(i as int)) == Ok::<Seq<AssetRecordView>, AppErrView>(records_view(out@)),
            forall|j: int| 0 <= j < out.len() ==> (#[trigger] out[j]).price.wf(),
        decreases n - i,
    {
        let m = &markets[i];
        proof {
            assert(ms.take(i + 1).drop_last() =~= ms.take(i as int));
            assert(ms.take(i + 1).last() == m@);
        }
        match parse(m.current_price.as_str()) {
            Ok(p) => {
                proof {
                    crate::decimal::lemma_amount_of_view(p);
                }
                let ghost old_out = out@;
                out.push(AssetRecord { name: m.name.clone(), symbol: m.symbol.clone(), price: p });
                proof {
                    assert(out@.drop_last() =~= old_out);
                    assert(records_view(out@) =~= records_view(old_out).push(out@.last()@));
                    assert(ms[i as int] == m@);
                    assert(market_record(m@) == Ok::<AssetRecordView, AppErrView>(out@.last()@));
                }
            },
            Err(t) => {
                let msg = String::from_str("failed to parse CoinGecko price for ").concat(m.name.as_str()).concat(
                    ": ",
                ).concat(t.as_str());
                proof {
                    assert(msg@ =~= "failed to parse CoinGecko price for "@ + m.name@ + ": "@ + t@);
                    lemma_records_stop(ms, i as int);
                }
                return Err(AppErr::Custom { message: msg });
            },
        }
        i = i + 1;
    }
    proof {
        assert(ms.take(n as int) =~= ms);
    }
    Ok(out)
}

/// Once an entry fails, the listing fails with the same error.
proof fn lemma_records_stop(ms: Seq<CoinGeckoMarketView>, i: int)
    requires
        0 <= i < ms.len(),
        market_records(ms.take(i)) is Ok,
        market_record(ms[i]) is Err,
    ensures
        market_records(ms) == Err::<Seq<AssetRecordView>, AppErrView>(market_record(ms[i])->Err_0),
    decreases ms.len() - i,
{
    if i == ms.len() - 1 {
        assert(ms.drop_last() =~= ms.take(i));
    } else {
        assert(ms.drop_last().take(i) =~= ms.take(i));
        assert(ms.drop_last()[i] == ms[i]);
        lemma_records_stop(ms.drop_last(), i);
    }
}

/// The record that listing entry `m` gives when its price parses to `p`.
pub open spec fn entry_record(m: CoinGeckoMarketView, p: (int, nat)) -> AssetRecordView {
    AssetRecordView { name: m.name, symbol: m.symbol, price: amount_of(p) }
}

/// A listing gives one record per entry, in order, each with the entry's
/// name, symbol and parsed price, when every price parses; otherwise the error
/// names the first entry whose price does not parse, with the parse error.
pub proof fn law_one_record_per_entry(ms: Seq<CoinGeckoMarketView>)
    ensures
        market_records(ms) matches Ok(rs) ==> rs.len() == ms.len() && forall|i: int|
            0 <= i < ms.len() ==> (decimal_parse(#[trigger] ms[i].current_price) is Ok && rs[i] == entry_record(
                ms[i],
                decimal_parse(ms[i].current_price)->Ok_0,
            )),
        market_records(ms) matches Err(e) ==> exists|i: int|
            0 <= i < ms.len() && (forall|j: int| 0 <= j < i ==> decimal_parse(#[trigger] ms[j].current_price) is Ok)
                && (decimal_parse(#[trigger] ms[i].current_price) matches Err(t) && e == AppErrView::Custom(
                "failed to parse CoinGecko price for "@ + ms[i].name + ": "@ + t,
            )),
        (forall|i: int| 0 <= i < ms.len() ==> decimal_parse(#[trigger] ms[i].current_price) is Ok) ==> market_records(
            ms,
        ) is Ok,
    decreases ms.len(),
{
    if ms.len() > 0 {
        let init = ms.drop_last();
        law_one_record_per_entry(init);
        assert forall|i: int| 0 <= i < init.len() implies #[trigger] init[i] == ms[i] by {}
        let last = ms.len() - 1;
        assert(ms.last() == ms[last]);
        match market_records(init) {
            Ok(rs0) => {
                assert(forall|i: int| 0 <= i < init.len() ==> decimal_parse(#[trigger] ms[i].current_price) is Ok) by {
                    assert forall|i: int| 0 <= i < init.len() implies decimal_parse(#[trigger] ms[i].current_price) is Ok by {
                        assert(init[i] == ms[i]);
                        assert(decimal_parse(init[i].current_price) is Ok);
                    }
                }
                match market_record(ms.last()) {
                    Ok(r) => {
                        let rs = rs0.push(r);
                        assert forall|i: int| 0 <= i < ms.len() implies (decimal_parse(#[trigger] ms[i].current_price) is Ok
                            && rs[i] == entry_record(ms[i], decimal_parse(ms[i].current_price)->Ok_0)) by {
                            if i < last {
                                assert(init[i] == ms[i]);
                                assert(decimal_parse(init[i].current_price) is Ok);
                            }
                        }
                    },
                    Err(e) => {
                        assert(decimal_parse(ms[last].current_price) is Err);
                    },
                }
            },
            Err(e) => {
                let i = choose|i: int|
                    0 <= i < init.len() && (forall|j: int| 0 <= j < i ==> decimal_parse(#[trigger] init[j].current_price) is Ok)
                        && (decimal_parse(#[trigger] init[i].current_price) matches Err(t) && e == AppErrView::Custom(
                        "failed to parse CoinGecko price for "@ + init[i].name + ": "@ + t,
                    ));
                assert(init[i] == ms[i]);
                assert forall|j: int| 0 <= j < i implies decimal_parse(#[trigger] ms[j].current_price) is Ok by {
                    assert(init[j] == ms[j]);
                    assert(decimal_parse(init[j].current_price) is Ok);
                }
                assert(decimal_parse(ms[i].current_price) is Err);
            },
        }
    }
}

} // verus!
