use std::str::FromStr;

use mini_exchange::database::asset_balances::{add_quantity_plan, sub_quantity_plan, BalanceWrite};
use mini_exchange::decimal::Amount;
use mini_exchange::http_server::jwt::access_claims;
use mini_exchange::portfolio::accounts::{
    found_user, me_response, order_lookup, order_responses, owned_order, portfolio_owner, portfolio_response,
    user_id_from_token, AssetBalance, UserRecord,
};
use mini_exchange::portfolio::auth::{
    hash_password, missing_authorization, token_rejection, trimmed_credentials, validate_trimmed_credentials,
    verify_password, CredentialsRequest,
};
use mini_exchange::portfolio::exception::HttpException;
use mini_exchange::portfolio::funds::{credit_deposit, deposit_response, parse_deposit_amount, DepositRequest};
use mini_exchange::portfolio::orders::{Order, OrderSide, OrderStatus};
use rust_decimal::Decimal;

const ALICE: &str = "018f0000-0000-7000-8000-000000000001";
const BOB: &str = "018f0000-0000-7000-8000-000000000002";

fn amount(s: &str) -> Amount {
    let d = Decimal::from_str(s).expect("valid decimal");
    Amount { mantissa: d.mantissa(), scale: d.scale() }
}

fn text(a: Amount) -> String {
    Decimal::from_i128_with_scale(a.mantissa, a.scale).to_string()
}

fn bad_request(r: Result<(), HttpException>) -> String {
    match r {
        Err(HttpException::BadRequest { msg }) => msg,
        other => panic!("unexpected {:?}", other),
    }
}

#[test]
fn credentials_are_checked_in_order() {
    assert!(validate_trimmed_credentials("bob", "password").is_ok());
    assert_eq!(bad_request(validate_trimmed_credentials("", "")), "username cannot be empty");
    assert_eq!(bad_request(validate_trimmed_credentials("bob", "")), "password cannot be empty");
    assert_eq!(bad_request(validate_trimmed_credentials("bo", "password")), "username length must be between 3 and 32");
    assert_eq!(
        bad_request(validate_trimmed_credentials(&"b".repeat(33), "password")),
        "username length must be between 3 and 32"
    );
    assert!(validate_trimmed_credentials(&"b".repeat(32), "password").is_ok());
    assert_eq!(bad_request(validate_trimmed_credentials("bob", "short")), "password length must be at least 8");
    assert!(validate_trimmed_credentials("ñañ", "pässwörd").is_ok());
}

#[test]
fn credentials_are_trimmed_before_the_check() {
    let req = CredentialsRequest { username: "  alice ".to_string(), password: " secretpw\n".to_string() };
    let (u, p) = trimmed_credentials(&req).unwrap();
    assert_eq!(u, "alice");
    assert_eq!(p, "secretpw");
    let req = CredentialsRequest { username: "  ab  ".to_string(), password: "secretpw".to_string() };
    assert!(trimmed_credentials(&req).is_err());
}

#[test]
fn a_hashed_password_verifies_and_others_do_not() {
    let h = hash_password("correct horse").unwrap();
    assert!(verify_password("correct horse", &h).is_ok());
    match verify_password("wrong horse", &h) {
        Err(HttpException::Unauthorized { msg }) => assert_eq!(msg, "invalid credentials"),
        other => panic!("unexpected {:?}", other),
    }
    for stored in ["not a phc string", ""] {
        match verify_password("x", stored) {
            Err(HttpException::Internal { msg }) => assert_eq!(msg, "password hash string missing field"),
            other => panic!("unexpected {:?}", other),
        }
    }
}

#[test]
fn deposits_in_sequence_each_see_the_previous_one() {
    let mut cash = amount("10");
    let mut answered = Vec::new();
    for a in ["2.5", "0.25", "7"] {
        cash = credit_deposit(Some(cash), amount(a)).unwrap();
        answered.push(deposit_response(cash).cash_balance);
    }
    assert_eq!(answered, vec!["12.5", "12.75", "19.75"]);
    assert_eq!(text(cash), "19.75");
}

#[test]
fn token_errors_are_unauthorized() {
    assert!(matches!(token_rejection(true), HttpException::Unauthorized { msg } if msg == "Expired token"));
    assert!(matches!(token_rejection(false), HttpException::Unauthorized { msg } if msg == "Invalid token"));
    assert!(matches!(missing_authorization(), HttpException::Unauthorized { msg } if msg == "Missing Authorization"));
}

#[test]
fn access_claims_expire_three_days_later() {
    let c = access_claims("id-1", "alice", 1_700_000_000);
    assert_eq!(c.sub, "id-1");
    assert_eq!(c.username, "alice");
    assert_eq!(c.exp, 1_700_259_200);
}

#[test]
fn deposits_must_be_positive_numbers() {
    let a = parse_deposit_amount(&DepositRequest { amount: " 25.50 ".to_string() }).unwrap();
    assert_eq!(text(a), "25.50");
    for (raw, msg) in [("abc", "amount must be a valid number"), ("0", "amount must be greater than 0"), ("-1", "amount must be greater than 0")] {
        match parse_deposit_amount(&DepositRequest { amount: raw.to_string() }) {
            Err(HttpException::BadRequest { msg: m }) => assert_eq!(m, msg),
            other => panic!("unexpected {:?}", other),
        }
    }
}

#[test]
fn deposits_add_to_the_balance() {
    let n = credit_deposit(Some(amount("10.25")), amount("5")).unwrap();
    assert_eq!(deposit_response(n).cash_balance, "15.25");
    assert!(matches!(credit_deposit(None, amount("5")), Err(HttpException::Internal { msg }) if msg == "user not found"));
    let big = Amount::new(0xFFFF_FFFF_FFFF_FFFF_FFFF_FFFF, 0).unwrap();
    assert!(matches!(credit_deposit(Some(big), big), Err(HttpException::Internal { msg }) if msg == "cash balance overflow"));
}

#[test]
fn portfolios_are_readable_by_their_owner_only() {
    assert_eq!(portfolio_owner(ALICE, ALICE).unwrap(), 0x018f0000000070008000000000000001);
    assert!(matches!(portfolio_owner(ALICE, BOB), Err(HttpException::Forbidden { msg }) if msg == "cannot access another user's portfolio"));
    assert!(matches!(portfolio_owner(ALICE, "nope"), Err(HttpException::BadRequest { msg }) if msg == "invalid user id format"));
    assert!(matches!(portfolio_owner("nope", ALICE), Err(HttpException::Internal { msg }) if msg == "invalid user id in token"));
    assert!(user_id_from_token(BOB).is_ok());
}

#[test]
fn portfolio_lists_cash_and_assets() {
    let user = found_user(Some(UserRecord {
        id: 0x018f0000000070008000000000000001,
        username: "alice".to_string(),
        cash_balance: amount("12.5"),
        created_at: 0,
    }))
    .unwrap();
    let r = portfolio_response(
        user,
        vec![
            AssetBalance { symbol: "btc".to_string(), quantity: amount("0.5") },
            AssetBalance { symbol: "eth".to_string(), quantity: amount("3") },
        ],
    );
    assert_eq!(r.user_id, ALICE);
    assert_eq!(r.username, "alice");
    assert_eq!(r.cash_balance, "12.5");
    assert_eq!(r.assets.len(), 2);
    assert_eq!(r.assets[0].symbol, "btc");
    assert_eq!(r.assets[0].quantity, "0.5");
    assert_eq!(r.assets[1].quantity, "3");
    assert!(matches!(found_user(None), Err(HttpException::Internal { msg }) if msg == "user not found"));
}

fn order_of(user_id: u128, key: &str) -> Order {
    Order {
        id: 9,
        user_id,
        client_order_id: key.to_string(),
        symbol: "btc".to_string(),
        side: OrderSide::Sell,
        quantity: amount("1"),
        price: None,
        status: OrderStatus::Rejected,
        reject_reason: None,
        created_at: 0,
    }
}

#[test]
fn orders_are_revealed_to_their_owner_only() {
    let (caller, id) = order_lookup(ALICE, "550e8400-e29b-41d4-a716-446655440000").unwrap();
    assert_eq!(id, 0x550e8400e29b41d4a716446655440000);
    assert!(owned_order(caller, Some(order_of(caller, "k"))).is_ok());
    assert!(matches!(owned_order(caller, Some(order_of(caller + 1, "k"))), Err(HttpException::Forbidden { msg }) if msg == "cannot access another user's order"));
    assert!(matches!(owned_order(caller, None), Err(HttpException::NotFound { msg }) if msg == "order not found"));
    assert!(matches!(order_lookup(ALICE, "x"), Err(HttpException::BadRequest { msg }) if msg == "invalid order id format"));
}

#[test]
fn order_listing_keeps_the_order() {
    let r = order_responses(vec![order_of(1, "a"), order_of(1, "b"), order_of(1, "c")]);
    let keys: Vec<&str> = r.iter().map(|o| o.client_order_id.as_str()).collect();
    assert_eq!(keys, vec!["a", "b", "c"]);
    assert_eq!(r[0].quantity, "1");
}

#[test]
fn profile_uses_the_token_username() {
    let r = me_response(
        Some(UserRecord { id: 1, username: "stored".to_string(), cash_balance: amount("0"), created_at: 42 }),
        "alice",
    )
    .unwrap();
    assert_eq!(r.username, "alice");
    assert_eq!(r.id, "00000000-0000-0000-0000-000000000001");
    assert_eq!(r.created_at, 42);
    assert!(me_response(None, "alice").is_err());
}

#[test]
fn balance_plans_add_insert_and_subtract() {
    assert_eq!(add_quantity_plan(None, amount("2")), Some(BalanceWrite::Insert(amount("2"))));
    match add_quantity_plan(Some(amount("1.5")), amount("2")) {
        Some(BalanceWrite::Update(q)) => assert_eq!(text(q), "3.5"),
        other => panic!("unexpected {:?}", other),
    }
    assert_eq!(sub_quantity_plan(None, amount("2")), Some(BalanceWrite::Keep));
    match sub_quantity_plan(Some(amount("1.5")), amount("2")) {
        Some(BalanceWrite::Update(q)) => assert_eq!(text(q), "-0.5"),
        other => panic!("unexpected {:?}", other),
    }
    let big = Amount::new(0xFFFF_FFFF_FFFF_FFFF_FFFF_FFFF, 0).unwrap();
    assert_eq!(add_quantity_plan(Some(big), big), None);
}

#[test]
fn portfolio_errors_map_to_statuses() {
    assert_eq!(HttpException::bad_request("x").status_code(), 400);
    assert_eq!(HttpException::unauthorized("x").status_code(), 401);
    assert_eq!(HttpException::forbidden("x").status_code(), 403);
    assert_eq!(HttpException::not_found("x").status_code(), 404);
    assert_eq!(HttpException::internal("x").status_code(), 500);
    assert!(HttpException::internal("x").is_traced());
    assert!(!HttpException::not_found("x").is_traced());
    assert_eq!(HttpException::forbidden("no").to_text(), "Forbidden: no");
    assert_eq!(HttpException::internal("boom").to_text(), "msg: boom");
}

#[test]
fn selling_what_is_held_leaves_zero() {
    match sub_quantity_plan(Some(amount("2.50")), amount("2.5")) {
        Some(BalanceWrite::Update(q)) => {
            assert_eq!(q.mantissa, 0);
            assert_eq!(text(q), "0.00");
        }
        other => panic!("unexpected {:?}", other),
    }
}
