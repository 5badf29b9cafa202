use std::collections::HashMap;
use std::str::FromStr;

use mini_exchange::database::asset_balances::{add_quantity_plan, sub_quantity_plan, BalanceWrite};
use mini_exchange::decimal::Amount;
use mini_exchange::portfolio::exception::HttpException;
use mini_exchange::portfolio::market_client::PriceError;
use mini_exchange::portfolio::order_flow::{
    start, validate_client_order_id, OrderAction, OrderEvent, OrderFlow,
};
use mini_exchange::portfolio::orders::{
    CreateOrderRequest, Order, OrderResponse, OrderSide, OrderStatus, RejectReason,
};
use mini_exchange::shared::result::AppErr;
use rust_decimal::Decimal;

const USER: &str = "018f0000-0000-7000-8000-000000000001";
const USER_ID: u128 = 0x018f0000000070008000000000000001;

fn amount(s: &str) -> Amount {
    let d = Decimal::from_str(s).expect("valid decimal");
    Amount { mantissa: d.mantissa(), scale: d.scale() }
}

fn text(a: Amount) -> String {
    Decimal::from_i128_with_scale(a.mantissa, a.scale).to_string()
}

#[derive(Default)]
struct Store {
    cash: HashMap<u128, Amount>,
    holdings: HashMap<(u128, String), Amount>,
    orders: Vec<Order>,
    price_calls: usize,
}

fn copy_order(o: &Order) -> Order {
    Order {
        id: o.id,
        user_id: o.user_id,
        client_order_id: o.client_order_id.clone(),
        symbol: o.symbol.clone(),
        side: o.side,
        quantity: o.quantity,
        price: o.price,
        status: o.status,
        reject_reason: o.reject_reason,
        created_at: o.created_at,
    }
}

/// Performs one action against the in-memory store, as the service performs it
/// against the database; `None` for the answering actions.
fn perform(store: &mut Store, action: OrderAction, price: Result<Amount, PriceError>) -> Result<OrderEvent, Result<(u16, Order), HttpException>> {
    Ok(match action {
        OrderAction::Respond { status, order } => return Err(Ok((status, order))),
        OrderAction::Fail { error } => return Err(Err(error)),
        OrderAction::FindByKey { user_id, client_order_id, .. } => OrderEvent::Found(
            store
                .orders
                .iter()
                .find(|o| o.user_id == user_id && o.client_order_id == client_order_id)
                .map(copy_order),
        ),
        OrderAction::FetchHeld { user_id, symbol, .. } => OrderEvent::Held(store.holdings.get(&(user_id, symbol)).copied()),
        OrderAction::FetchPrice { .. } => {
            store.price_calls += 1;
            OrderEvent::Priced(price)
        }
        OrderAction::LockUser { user_id } => OrderEvent::Locked(store.cash.get(&user_id).copied()),
        OrderAction::SetCash { user_id, cash } => {
            store.cash.insert(user_id, cash);
            OrderEvent::Written
        }
        OrderAction::AddAsset { user_id, symbol, quantity } => {
            let key = (user_id, symbol);
            match add_quantity_plan(store.holdings.get(&key).copied(), quantity).expect("no overflow") {
                BalanceWrite::Update(q) | BalanceWrite::Insert(q) => {
                    store.holdings.insert(key, q);
                }
                BalanceWrite::Keep => {}
            }
            OrderEvent::Written
        }
        OrderAction::SubAsset { user_id, symbol, quantity } => {
            let key = (user_id, symbol);
            match sub_quantity_plan(store.holdings.get(&key).copied(), quantity).expect("no overflow") {
                BalanceWrite::Update(q) | BalanceWrite::Insert(q) => {
                    store.holdings.insert(key, q);
                }
                BalanceWrite::Keep => {}
            }
            OrderEvent::Written
        }
        OrderAction::Insert { record } => {
            if store.orders.iter().any(|o| o.user_id == record.user_id && o.client_order_id == record.client_order_id) {
                OrderEvent::DbFailed(AppErr::Database { src: "duplicate key value violates unique constraint".to_string() })
            } else {
                let o = Order {
                    id: store.orders.len() as u128 + 1,
                    user_id: record.user_id,
                    client_order_id: record.client_order_id,
                    symbol: record.symbol,
                    side: record.side,
                    quantity: record.quantity,
                    price: record.price,
                    status: record.status,
                    reject_reason: record.reject_reason,
                    created_at: 0,
                };
                store.orders.push(copy_order(&o));
                OrderEvent::Inserted(o)
            }
        }
        OrderAction::Commit => OrderEvent::Committed,
    })
}

/// Runs the flow of `sub` to its answer against the in-memory store.
fn place_as(store: &mut Store, sub: &str, req: CreateOrderRequest, price: Result<Amount, PriceError>) -> Result<(u16, Order), HttpException> {
    let (mut flow, mut action): (OrderFlow, OrderAction) = start(sub, req);
    loop {
        match perform(store, action, price) {
            Err(answer) => return answer,
            Ok(event) => {
                let (next, act) = flow.step(event);
                flow = next;
                action = act;
            }
        }
    }
}

fn place(store: &mut Store, req: CreateOrderRequest, price: Result<Amount, PriceError>) -> Result<(u16, Order), HttpException> {
    place_as(store, USER, req, price)
}

fn request(symbol: &str, side: OrderSide, quantity: &str, key: &str) -> CreateOrderRequest {
    CreateOrderRequest {
        symbol: symbol.to_string(),
        side,
        quantity: quantity.to_string(),
        client_order_id: key.to_string(),
    }
}

fn store_with_cash(cash: &str) -> Store {
    let mut s = Store::default();
    s.cash.insert(USER_ID, amount(cash));
    s
}

#[test]
fn buy_with_enough_cash_executes() {
    let mut s = store_with_cash("1000");
    let (status, o) = place(&mut s, request(" BTC ", OrderSide::Buy, "0.5", "k1"), Ok(amount("100"))).unwrap();
    assert_eq!(status, 201);
    assert_eq!(o.status, OrderStatus::Executed);
    assert_eq!(o.symbol, "btc");
    assert_eq!(text(o.price.unwrap()), "100");
    assert_eq!(o.reject_reason, None);
    assert_eq!(text(s.cash[&USER_ID]), "950.0");
    assert_eq!(text(s.holdings[&(USER_ID, "btc".to_string())]), "0.5");
    assert_eq!(s.orders.len(), 1);
}

#[test]
fn buy_without_enough_cash_is_rejected_and_changes_nothing() {
    let mut s = store_with_cash("10");
    let (status, o) = place(&mut s, request("eth", OrderSide::Buy, "1", "k2"), Ok(amount("2000"))).unwrap();
    assert_eq!(status, 201);
    assert_eq!(o.status, OrderStatus::Rejected);
    assert_eq!(o.reject_reason, Some(RejectReason::InsufficientCash));
    assert_eq!(o.price, None);
    assert_eq!(text(s.cash[&USER_ID]), "10");
    assert!(s.holdings.is_empty());
}

#[test]
fn unpriced_orders_are_rejected_with_the_matching_reason() {
    let mut s = store_with_cash("10");
    let (_, o) = place(&mut s, request("eth", OrderSide::Buy, "1", "k3"), Err(PriceError::Unavailable)).unwrap();
    assert_eq!(o.reject_reason, Some(RejectReason::MarketServiceUnavailable));
    let (_, o) = place(&mut s, request("zzz", OrderSide::Buy, "1", "k4"), Err(PriceError::InvalidSymbol)).unwrap();
    assert_eq!(o.reject_reason, Some(RejectReason::InvalidSymbol));
    assert_eq!(text(s.cash[&USER_ID]), "10");
}

#[test]
fn sell_beyond_holdings_is_rejected_before_pricing() {
    let mut s = store_with_cash("0");
    let (status, o) = place(&mut s, request("btc", OrderSide::Sell, "1", "k5"), Ok(amount("100"))).unwrap();
    assert_eq!(status, 201);
    assert_eq!(o.reject_reason, Some(RejectReason::InsufficientAsset));
    assert_eq!(s.price_calls, 0);
}

#[test]
fn sell_within_holdings_executes() {
    let mut s = store_with_cash("5");
    s.holdings.insert((USER_ID, "btc".to_string()), amount("2"));
    let (status, o) = place(&mut s, request("BTC", OrderSide::Sell, "1.5", "k6"), Ok(amount("10"))).unwrap();
    assert_eq!(status, 201);
    assert_eq!(o.status, OrderStatus::Executed);
    assert_eq!(o.side, OrderSide::Sell);
    assert_eq!(text(s.holdings[&(USER_ID, "btc".to_string())]), "0.5");
    assert_eq!(text(s.cash[&USER_ID]), "20.0");
}

#[test]
fn retry_with_same_key_replays_the_first_order() {
    let mut s = store_with_cash("1000");
    let (status1, first) = place(&mut s, request("btc", OrderSide::Buy, "1", "same"), Ok(amount("100"))).unwrap();
    // The retry differs in everything but the key, and is still replayed.
    let (status2, again) = place(&mut s, request("", OrderSide::Sell, "oops", " same "), Ok(amount("1"))).unwrap();
    assert_eq!(status1, 201);
    assert_eq!(status2, 200);
    assert_eq!(again.id, first.id);
    assert_eq!(s.orders.len(), 1);
    assert_eq!(text(s.cash[&USER_ID]), "900");
}

#[test]
fn invalid_requests_are_refused_before_any_write() {
    let mut s = store_with_cash("1000");
    let cases = [
        (request("btc", OrderSide::Buy, "1", "   "), "client_order_id is required"),
        (request("btc", OrderSide::Buy, "1", &"x".repeat(101)), "client_order_id is too long"),
        (request("  ", OrderSide::Buy, "1", "a"), "symbol is required"),
        (request("btc", OrderSide::Buy, "one", "b"), "quantity must be a valid number"),
        (request("btc", OrderSide::Buy, "0", "c"), "quantity must be greater than 0"),
        (request("btc", OrderSide::Buy, "-2", "d"), "quantity must be greater than 0"),
    ];
    for (req, msg) in cases {
        match place(&mut s, req, Ok(amount("1"))) {
            Err(HttpException::BadRequest { msg: m }) => assert_eq!(m, msg),
            other => panic!("unexpected {:?}", other),
        }
    }
    assert!(s.orders.is_empty());
    assert_eq!(text(s.cash[&USER_ID]), "1000");
}

#[test]
fn a_key_of_exactly_one_hundred_characters_is_accepted() {
    assert!(validate_client_order_id(&"x".repeat(100)).is_ok());
    assert_eq!(validate_client_order_id("  k  ").unwrap(), "k");
}

#[test]
fn unknown_user_and_bad_token_are_internal_errors() {
    let mut s = Store::default();
    match place(&mut s, request("btc", OrderSide::Buy, "1", "k"), Ok(amount("1"))) {
        Err(HttpException::Internal { msg }) => assert_eq!(msg, "user not found"),
        other => panic!("unexpected {:?}", other),
    }
    let (_, action) = start("not-a-uuid", request("btc", OrderSide::Buy, "1", "k"));
    match action {
        OrderAction::Fail { error: HttpException::Internal { msg } } => assert_eq!(msg, "invalid user id in token"),
        other => panic!("unexpected {:?}", other),
    }
}

#[test]
fn database_and_transaction_failures_end_the_flow() {
    let (flow, _) = start(USER, request("btc", OrderSide::Buy, "1", "k"));
    let (_, action) = flow.step(OrderEvent::DbFailed(AppErr::Database { src: "down".to_string() }));
    match action {
        OrderAction::Fail { error: HttpException::App(AppErr::Database { src }) } => assert_eq!(src, "down"),
        other => panic!("unexpected {:?}", other),
    }
    let (flow, _) = start(USER, request("btc", OrderSide::Buy, "1", "k"));
    let (flow, _) = flow.step(OrderEvent::Found(None));
    let (flow, _) = flow.step(OrderEvent::Priced(Ok(amount("1"))));
    let (finished, action) = flow.step(OrderEvent::TxnFailed("begin failed".to_string()));
    match action {
        OrderAction::Fail { error: HttpException::Internal { msg } } => assert_eq!(msg, "begin failed"),
        other => panic!("unexpected {:?}", other),
    }
    let (_, action) = finished.step(OrderEvent::Committed);
    match action {
        OrderAction::Fail { error: HttpException::Internal { msg } } => assert_eq!(msg, "unexpected event"),
        other => panic!("unexpected {:?}", other),
    }
}

#[test]
fn overflowing_total_is_refused_as_too_large() {
    let mut s = store_with_cash("1");
    let big = Amount::new(0xFFFF_FFFF_FFFF_FFFF_FFFF_FFFF, 0).unwrap();
    match place(&mut s, request("btc", OrderSide::Buy, "1000", "k"), Ok(big)) {
        Err(HttpException::App(AppErr::Custom { message })) => assert_eq!(message, "value is too large"),
        other => panic!("unexpected {:?}", other),
    }
    assert!(s.orders.is_empty());
}

#[test]
fn order_responses_describe_ids_and_amounts_as_text() {
    let o = Order {
        id: 0x550e8400e29b41d4a716446655440000,
        user_id: USER_ID,
        client_order_id: "k".to_string(),
        symbol: "btc".to_string(),
        side: OrderSide::Buy,
        quantity: amount("0.10"),
        price: Some(amount("99.5")),
        status: OrderStatus::Executed,
        reject_reason: None,
        created_at: 7,
    };
    let r = OrderResponse::from_order(o);
    assert_eq!(r.id, "550e8400-e29b-41d4-a716-446655440000");
    assert_eq!(r.user_id, USER);
    assert_eq!(r.quantity, "0.10");
    assert_eq!(r.price.as_deref(), Some("99.5"));
    assert_eq!(r.created_at, 7);
}

const OTHER: &str = "018f0000-0000-7000-8000-000000000002";
const OTHER_ID: u128 = 0x018f0000000070008000000000000002;

#[test]
fn same_idempotency_key_under_two_users_places_two_orders() {
    let mut s = store_with_cash("100");
    s.cash.insert(OTHER_ID, amount("100"));
    let (sa, a) = place_as(&mut s, USER, request("btc", OrderSide::Buy, "1", "shared"), Ok(amount("1"))).unwrap();
    let (sb, b) = place_as(&mut s, OTHER, request("btc", OrderSide::Buy, "1", "shared"), Ok(amount("1"))).unwrap();
    assert_eq!((sa, sb), (201, 201));
    assert_ne!(a.id, b.id);
    assert_eq!(s.orders.len(), 2);
}

#[test]
fn a_retry_racing_the_first_request_is_replayed_under_the_lock() {
    let mut s = store_with_cash("1000");
    let price = Ok(amount("100"));
    // Both requests pass the fast lookup before either has stored anything.
    let (mut first, mut first_action) = start(USER, request("btc", OrderSide::Buy, "1", "race"));
    let (mut second, mut second_action) = start(USER, request("btc", OrderSide::Buy, "1", "race"));
    for _ in 0..2 {
        let e = perform(&mut s, first_action, price).ok().unwrap();
        let (f, a) = first.step(e);
        first = f;
        first_action = a;
        let e = perform(&mut s, second_action, price).ok().unwrap();
        let (f, a) = second.step(e);
        second = f;
        second_action = a;
    }
    // The first request takes the lock and runs to completion.
    let first_answer = loop {
        match perform(&mut s, first_action, price) {
            Err(answer) => break answer.unwrap(),
            Ok(e) => {
                let (f, a) = first.step(e);
                first = f;
                first_action = a;
            }
        }
    };
    // The second then gets the lock and finds the committed order.
    let second_answer = loop {
        match perform(&mut s, second_action, price) {
            Err(answer) => break answer.unwrap(),
            Ok(e) => {
                let (f, a) = second.step(e);
                second = f;
                second_action = a;
            }
        }
    };
    assert_eq!(first_answer.0, 201);
    assert_eq!(second_answer.0, 200);
    assert_eq!(second_answer.1.id, first_answer.1.id);
    assert_eq!(s.orders.len(), 1);
    assert_eq!(text(s.cash[&USER_ID]), "900");
}
