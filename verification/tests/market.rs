use std::str::FromStr;

use mini_exchange::database::assets::{needs_upsert, AssetRecord};
use mini_exchange::decimal::Amount;
use mini_exchange::http_server::exception::HttpException as ServerException;
use mini_exchange::http_server::ws::{reply_to, WsOpcode, WsReply};
use mini_exchange::market::coingecko::{to_asset_records, CoinGeckoMarket};
use mini_exchange::market::exception::HttpException;
use mini_exchange::market::price::{lookup_symbol, price_response};
use mini_exchange::market::prices::prices_response;
use mini_exchange::market::symbols::symbols_response;
use mini_exchange::portfolio::market_client::{classify_price_reply, price_url, PriceError};
use mini_exchange::shared::result::AppErr;
use rust_decimal::Decimal;

fn amount(s: &str) -> Amount {
    let d = Decimal::from_str(s).expect("valid decimal");
    Amount { mantissa: d.mantissa(), scale: d.scale() }
}

fn text(a: Amount) -> String {
    Decimal::from_i128_with_scale(a.mantissa, a.scale).to_string()
}

fn market(name: &str, symbol: &str, price: &str) -> CoinGeckoMarket {
    CoinGeckoMarket { name: name.to_string(), symbol: symbol.to_string(), current_price: price.to_string() }
}

fn record(name: &str, symbol: &str, price: &str) -> AssetRecord {
    AssetRecord { name: name.to_string(), symbol: symbol.to_string(), price: amount(price) }
}

#[test]
fn price_urls_join_base_and_lowercase_symbol() {
    assert_eq!(price_url("http://market:3001/", "BTC"), "http://market:3001/prices/btc");
    assert_eq!(price_url("http://market:3001", "eth"), "http://market:3001/prices/eth");
}

#[test]
fn price_replies_are_classified() {
    assert_eq!(classify_price_reply(None, None), Err(PriceError::Unavailable));
    assert_eq!(classify_price_reply(Some(404), None), Err(PriceError::InvalidSymbol));
    assert_eq!(classify_price_reply(Some(503), Some("1")), Err(PriceError::Unavailable));
    assert_eq!(classify_price_reply(Some(200), None), Err(PriceError::Unavailable));
    assert_eq!(classify_price_reply(Some(200), Some("n/a")), Err(PriceError::InvalidSymbol));
    assert_eq!(text(classify_price_reply(Some(200), Some("64000.5")).unwrap()), "64000.5");
}

#[test]
fn coingecko_listing_becomes_records() {
    let rs = to_asset_records(vec![market("Bitcoin", "btc", "64000.12"), market("Ether", "eth", "3000")]).unwrap();
    assert_eq!(rs.len(), 2);
    assert_eq!(rs[0].name, "Bitcoin");
    assert_eq!(text(rs[0].price), "64000.12");
    assert_eq!(rs[1].symbol, "eth");
    assert!(to_asset_records(vec![]).unwrap().is_empty());
}

#[test]
fn coingecko_bad_price_names_the_entry() {
    match to_asset_records(vec![market("Bitcoin", "btc", "1"), market("Broken", "brk", "x"), market("Other", "o", "y")]) {
        Err(AppErr::Custom { message }) => {
            assert!(message.starts_with("failed to parse CoinGecko price for Broken: "), "{}", message)
        }
        other => panic!("unexpected {:?}", other),
    }
}

#[test]
fn price_endpoint_answers_or_not_found() {
    assert_eq!(lookup_symbol("BTC"), "btc");
    let r = price_response("btc", Some(record("Bitcoin", "btc", "1.50"))).unwrap();
    assert_eq!(r.symbol, "btc");
    assert_eq!(r.name, "Bitcoin");
    assert_eq!(r.price, "1.50");
    match price_response("zzz", None) {
        Err(e) => {
            assert_eq!(e.status_code(), 404);
            assert_eq!(e.to_text(), "NotFound: symbol not found: zzz");
        }
        Ok(_) => panic!("expected not found"),
    }
}

#[test]
fn listings_keep_the_order_read() {
    let assets = vec![record("Bitcoin", "btc", "2"), record("Ether", "eth", "1")];
    let r = prices_response(assets);
    assert_eq!(r.prices[0].symbol, "btc");
    assert_eq!(r.prices[1].price, "1");
    let s = symbols_response(vec![record("Bitcoin", "btc", "2"), record("Ether", "eth", "1")]);
    assert_eq!(s.symbols, vec!["btc".to_string(), "eth".to_string()]);
    assert!(!needs_upsert(&vec![]));
    assert!(needs_upsert(&vec![record("a", "a", "1")]));
}

#[test]
fn market_errors_map_to_statuses() {
    assert_eq!(HttpException::bad_request("x").status_code(), 400);
    assert_eq!(HttpException::internal("x").status_code(), 500);
    assert!(HttpException::internal("x").is_traced());
    assert_eq!(HttpException::App(AppErr::custom("c")).to_text(), "Custom: c");
    assert_eq!(HttpException::App(AppErr::custom("c")).status_code(), 500);
}

#[test]
fn server_errors_map_to_statuses() {
    assert_eq!(ServerException::validate("v").status_code(), 400);
    assert_eq!(ServerException::validate("v").to_text(), "BadRequest: v");
    assert_eq!(ServerException::Validation { src: "len".to_string() }.status_code(), 400);
    assert_eq!(ServerException::unauthorized("u").status_code(), 401);
    assert_eq!(ServerException::internal("i").status_code(), 500);
    assert_eq!(ServerException::ParseInt { src: "p".to_string() }.to_text(), "ParseInt: p");
    assert!(!ServerException::bad_request("b").is_traced());
    assert!(ServerException::ParseInt { src: "p".to_string() }.is_traced());
}

#[test]
fn websocket_frames_are_answered_by_kind() {
    assert_eq!(reply_to(WsOpcode::Close), WsReply::Close);
    assert_eq!(reply_to(WsOpcode::Ping), WsReply::Pong);
    assert_eq!(reply_to(WsOpcode::Text), WsReply::Log);
    assert_eq!(reply_to(WsOpcode::Binary), WsReply::Log);
    assert_eq!(reply_to(WsOpcode::Pong), WsReply::Ignore);
    assert_eq!(reply_to(WsOpcode::Continuation), WsReply::Ignore);
}
