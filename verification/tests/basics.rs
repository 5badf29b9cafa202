use std::str::FromStr;

use mini_exchange::decimal::Amount;
use mini_exchange::market::price::lookup_symbol;
use mini_exchange::portfolio::accounts::user_id_from_token;
use mini_exchange::portfolio::auth::sign_up_response;
use mini_exchange::portfolio::exception::HttpException;
use mini_exchange::portfolio::funds::{credit_deposit, deposit_response, parse_deposit_amount, DepositRequest};
use mini_exchange::shared::env::{load, Env};
use mini_exchange::shared::result::AppErr;
use mini_exchange::shared::tracing::Crate;
use mini_exchange::shared::util::checked_mul;
use mini_exchange::text::{char_count, trim, trim_trailing_slashes};
use rust_decimal::Decimal;

fn amount(s: &str) -> Amount {
    let d = Decimal::from_str(s).expect("valid decimal");
    Amount { mantissa: d.mantissa(), scale: d.scale() }
}

fn text(a: Amount) -> String {
    Decimal::from_i128_with_scale(a.mantissa, a.scale).to_string()
}

fn deposit(s: &str) -> Result<Amount, HttpException> {
    parse_deposit_amount(&DepositRequest { amount: s.to_string() })
}

fn bad_request(r: Result<Amount, HttpException>) -> String {
    match r {
        Err(HttpException::BadRequest { msg }) => msg,
        other => panic!("unexpected {:?}", other),
    }
}

#[test]
fn deposit_amount_reads_mantissa_and_scale() {
    let a = deposit("12.345").unwrap();
    assert_eq!(a.mantissa, 12345);
    assert_eq!(a.scale, 3);
    let b = deposit(" 0.5 ").unwrap();
    assert_eq!(b.mantissa, 5);
    assert_eq!(b.scale, 1);
}

#[test]
fn deposit_amount_rejects_text_that_is_not_a_number() {
    assert_eq!(bad_request(deposit("abc")), "amount must be a valid number");
    assert_eq!(bad_request(deposit("")), "amount must be a valid number");
    assert_eq!(bad_request(deposit("1.2.3")), "amount must be a valid number");
}

#[test]
fn deposit_amount_compares_values_not_representations() {
    assert_eq!(bad_request(deposit("0")), "amount must be greater than 0");
    assert_eq!(bad_request(deposit("0.000")), "amount must be greater than 0");
    assert_eq!(bad_request(deposit("-3")), "amount must be greater than 0");
    assert_eq!(text(deposit("0.0001").unwrap()), "0.0001");
}

#[test]
fn amount_new_checks_the_representable_range() {
    assert!(Amount::new(1, 28).is_some());
    assert!(Amount::new(1, 29).is_none());
    assert!(Amount::new(0xFFFF_FFFF_FFFF_FFFF_FFFF_FFFF, 0).is_some());
    assert!(Amount::new(0x1_0000_0000_0000_0000_0000_0000, 0).is_none());
    assert!(Amount::new(-0x1_0000_0000_0000_0000_0000_0000, 0).is_none());
}

#[test]
fn credit_adds_with_rust_decimal() {
    assert_eq!(text(credit_deposit(Some(amount("100.5")), amount("2")).unwrap()), "102.5");
    assert_eq!(text(credit_deposit(Some(Amount::zero()), amount("0.25")).unwrap()), "0.25");
    let big = Amount::new(0xFFFF_FFFF_FFFF_FFFF_FFFF_FFFF, 0).unwrap();
    match credit_deposit(Some(big), big) {
        Err(HttpException::Internal { msg }) => assert_eq!(msg, "cash balance overflow"),
        other => panic!("unexpected {:?}", other),
    }
    match credit_deposit(None, amount("1")) {
        Err(HttpException::Internal { msg }) => assert_eq!(msg, "user not found"),
        other => panic!("unexpected {:?}", other),
    }
}

#[test]
fn deposit_response_keeps_the_scale() {
    assert_eq!(deposit_response(amount("1.50")).cash_balance, "1.50");
    assert_eq!(deposit_response(Amount::zero()).cash_balance, "0");
}

#[test]
fn checked_mul_reports_overflow_as_custom_error() {
    let total = checked_mul(amount("3"), amount("0.25")).unwrap();
    assert_eq!(text(total), "0.75");
    assert_eq!(text(checked_mul(amount("100.5"), amount("2")).unwrap()), "201.0");
    let big = Amount::new(0xFFFF_FFFF_FFFF_FFFF_FFFF_FFFF, 0).unwrap();
    match checked_mul(big, amount("10")) {
        Err(AppErr::Custom { message }) => assert_eq!(message, "value is too large"),
        other => panic!("unexpected {:?}", other),
    }
}

#[test]
fn uuids_parse_and_print_hyphenated() {
    let id = user_id_from_token("550e8400-e29b-41d4-a716-446655440000").unwrap();
    assert_eq!(id, 0x550e8400e29b41d4a716446655440000);
    assert_eq!(sign_up_response(id, "bob".to_string()).id, "550e8400-e29b-41d4-a716-446655440000");
    match user_id_from_token("not-a-uuid") {
        Err(HttpException::Internal { msg }) => assert_eq!(msg, "invalid user id in token"),
        other => panic!("unexpected {:?}", other),
    }
}

#[test]
fn trim_removes_unicode_whitespace_at_both_ends() {
    assert_eq!(trim("  btc \t\n"), "btc");
    assert_eq!(trim("\u{3000}a b\u{a0}"), "a b");
    assert_eq!(trim("   "), "");
    assert_eq!(trim(""), "");
    assert_eq!(trim("x"), "x");
}

#[test]
fn trailing_slashes_are_stripped() {
    assert_eq!(trim_trailing_slashes("http://market:8080//"), "http://market:8080");
    assert_eq!(trim_trailing_slashes("/"), "");
    assert_eq!(trim_trailing_slashes("a/b"), "a/b");
}

#[test]
fn lowercase_and_char_count() {
    assert_eq!(lookup_symbol("BTC"), "btc");
    assert_eq!(char_count("héllo"), 5);
}

#[test]
fn env_keys_name_each_variable() {
    load();
    assert_eq!(Env::MarketDatabaseUrl.key(), "MARKET_DATABASE_URL");
    assert_eq!(Env::PortfolioDatabaseUrl.key(), "PORTFOLIO_DATABASE_URL");
    assert_eq!(Env::AccessTokenKey.key(), "ACCESS_TOKEN_KEY");
    assert_eq!(Env::CoingeckoApiKey.key(), "COINGECKO_API_KEY");
    assert_eq!(Env::PortfolioServicePort.key(), "PORTFOLIO_SERVICE_PORT");
    assert_eq!(Env::MarketServicePort.key(), "MARKET_SERVICE_PORT");
    assert_eq!(Env::MarketServiceUrl.key(), "MARKET_SERVICE_URL");
}

#[test]
fn crate_targets_are_snake_case() {
    let names: Vec<&str> = Crate::all().iter().map(|c| c.name()).collect();
    assert_eq!(
        names,
        vec!["http_server", "evm_lib", "evm_scanner", "evm_stream", "sol_lib", "solana_scanner", "solana_stream"]
    );
}

#[test]
fn app_errors_display_their_kind() {
    assert_eq!(AppErr::custom("boom").to_text(), "Custom: boom");
    assert_eq!(AppErr::Database { src: "gone".to_string() }.to_text(), "Database: gone");
    assert_eq!(AppErr::ParseUri { src: "bad".to_string() }.to_text(), "ParseUrl: bad");
    assert_eq!(AppErr::Io { src: "x".to_string() }.duplicate().to_text(), "I/O: x");
}
