//! Placing a market order, as a state machine.
//!
//! `POST /orders` alternates database and market-service work with decisions.
//! The decisions live here: [`start`] and [`OrderFlow::step`] take the state
//! and the outcome of the last piece of outside work, and give the next state
//! and the next piece of work to do ([`OrderAction`]). The caller performs
//! each action and feeds its outcome back as an [`OrderEvent`] until the
//! action is `Respond` or `Fail`.
//!
//! The flow: the idempotency key is checked first and a previously placed
//! order with that key is replayed as-is. A fresh order is validated, priced,
//! and executed in a transaction that locks the user's row; under the lock the
//! key is checked again, so a concurrent retry that committed first is
//! replayed instead of executed twice. Orders that cannot be priced, or for
//! which the user lacks cash or assets, are stored as rejected.

use vstd::prelude::*;
use vstd::string::*;

use crate::decimal::{amount_of, decimal_add, decimal_mul, decimal_parse, decimal_sub, parse, value_lt, Amount};
use crate::ids::{parse_uuid, uuid_parse};
use crate::portfolio::exception::{HttpException, HttpExceptionView};
use crate::portfolio::market_client::PriceError;
use crate::portfolio::orders::{
    new_order, new_order_spec, CreateOrderRequest, CreateOrderRequestView, NewOrder, NewOrderView, Order, OrderCtx,
    OrderCtxView, OrderSide, OrderStatus, OrderView, RejectReason,
};
use crate::shared::result::{AppErr, AppErrView};
use crate::text::{char_count, to_lowercase, trim, trim_spec, unicode_lowercase};

verus! {

/// Longest accepted idempotency key, in characters.
pub const MAX_CLIENT_ORDER_ID_LEN: usize = 100;

/// What to do once the user's row is locked.
#[derive(Clone, Copy, Debug, PartialEq, Eq, Structural)]
pub enum Plan {
    /// Store the order as rejected for this reason.
    Reject(RejectReason),
    /// Buy at `price`, paying `total`.
    Buy { price: Amount, total: Amount },
    /// Sell at `price`, receiving `proceeds`.
    Sell { price: Amount, proceeds: Amount },
}

impl Plan {
    pub open spec fn wf(self) -> bool {
        match self {
            Plan::Reject(_) => true,
            Plan::Buy { price, total } => price.wf() && total.wf(),
            Plan::Sell { price, proceeds } => price.wf() && proceeds.wf(),
        }
    }
}

/// Where the placement of an order stands.
#[derive(Debug)]
pub enum OrderFlow {
    /// Waiting for the lookup of the idempotency key (no lock held).
    AwaitFastReplay { user_id: u128, client_order_id: String, req: CreateOrderRequest },
    /// Selling: waiting for the held quantity, read before any lock.
    AwaitHeld { ctx: OrderCtx },
    /// Waiting for the market price.
    AwaitPrice { ctx: OrderCtx, side: OrderSide },
    /// Waiting for the transaction to start and the user's row to be locked.
    AwaitLock { ctx: OrderCtx, side: OrderSide, plan: Plan },
    /// Waiting for the lookup of the idempotency key under the lock.
    AwaitReplay { ctx: OrderCtx, side: OrderSide, plan: Plan, cash: Amount },
    /// Selling: waiting for the held quantity, read under the lock.
    AwaitLockedHeld { ctx: OrderCtx, price: Amount, proceeds: Amount, cash: Amount },
    /// Selling: waiting for the asset balance to be reduced.
    AwaitSubAsset { ctx: OrderCtx, price: Amount, proceeds: Amount, cash: Amount },
    /// Waiting for the cash balance to be written.
    AwaitSetCash { ctx: OrderCtx, side: OrderSide, price: Amount },
    /// Buying: waiting for the asset balance to be increased.
    AwaitAddAsset { ctx: OrderCtx, price: Amount },
    /// Waiting for the order to be stored.
    AwaitInsert,
    /// Waiting for the transaction to commit.
    AwaitCommit { order: Order },
    /// Nothing more to do.
    Finished,
}

/// The mathematical view of an [`OrderFlow`].
pub enum OrderFlowView {
    AwaitFastReplay { user_id: u128, client_order_id: Seq<char>, req: CreateOrderRequestView },
    AwaitHeld { ctx: OrderCtxView },
    AwaitPrice { ctx: OrderCtxView, side: OrderSide },
    AwaitLock { ctx: OrderCtxView, side: OrderSide, plan: Plan },
    AwaitReplay { ctx: OrderCtxView, side: OrderSide, plan: Plan, cash: Amount },
    AwaitLockedHeld { ctx: OrderCtxView, price: Amount, proceeds: Amount, cash: Amount },
    AwaitSubAsset { ctx: OrderCtxView, price: Amount, proceeds: Amount, cash: Amount },
    AwaitSetCash { ctx: OrderCtxView, side: OrderSide, price: Amount },
    AwaitAddAsset { ctx: OrderCtxView, price: Amount },
    AwaitInsert,
    AwaitCommit { order: OrderView },
    Finished,
}

impl View for OrderFlow {
    type V = OrderFlowView;

    open spec fn view(&self) -> OrderFlowView {
        match self {
            OrderFlow::AwaitFastReplay { user_id, client_order_id, req } =>
                OrderFlowView::AwaitFastReplay { user_id: *user_id, client_order_id: client_order_id@, req: req@ },
            OrderFlow::AwaitHeld { ctx } => OrderFlowView::AwaitHeld { ctx: ctx@ },
            OrderFlow::AwaitPrice { ctx, side } => OrderFlowView::AwaitPrice { ctx: ctx@, side: *side },
            OrderFlow::AwaitLock { ctx, side, plan } =>
                OrderFlowView::AwaitLock { ctx: ctx@, side: *side, plan: *plan },
            OrderFlow::AwaitReplay { ctx, side, plan, cash } =>
                OrderFlowView::AwaitReplay { ctx: ctx@, side: *side, plan: *plan, cash: *cash },
            OrderFlow::AwaitLockedHeld { ctx, price, proceeds, cash } =>
                OrderFlowView::AwaitLockedHeld { ctx: ctx@, price: *price, proceeds: *proceeds, cash: *cash },
            OrderFlow::AwaitSubAsset { ctx, price, proceeds, cash } =>
                OrderFlowView::AwaitSubAsset { ctx: ctx@, price: *price, proceeds: *proceeds, cash: *cash },
            OrderFlow::AwaitSetCash { ctx, side, price } =>
                OrderFlowView::AwaitSetCash { ctx: ctx@, side: *side, price: *price },
            OrderFlow::AwaitAddAsset { ctx, price } => OrderFlowView::AwaitAddAsset { ctx: ctx@, price: *price },
            OrderFlow::AwaitInsert => OrderFlowView::AwaitInsert,
            OrderFlow::AwaitCommit { order } => OrderFlowView::AwaitCommit { order: order@ },
            OrderFlow::Finished => OrderFlowView::Finished,
        }
    }
}

/// The amounts a stored order carries are ones `rust_decimal` represents.
pub open spec fn order_wf(o: OrderView) -> bool {
    &&& o.quantity.wf()
    &&& o.price matches Some(p) ==> p.wf()
}

impl OrderFlow {
    /// Every amount the state carries is one `rust_decimal` represents.
    pub open spec fn wf(&self) -> bool {
        match self@ {
            OrderFlowView::AwaitFastReplay { .. } => true,
            OrderFlowView::AwaitHeld { ctx } => ctx.quantity.wf(),
            OrderFlowView::AwaitPrice { ctx, .. } => ctx.quantity.wf(),
            OrderFlowView::AwaitLock { ctx, plan, .. } => ctx.quantity.wf() && plan.wf(),
            OrderFlowView::AwaitReplay { ctx, plan, cash, .. } => ctx.quantity.wf() && plan.wf() && cash.wf(),
            OrderFlowView::AwaitLockedHeld { ctx, price, proceeds, cash } =>
                ctx.quantity.wf() && price.wf() && proceeds.wf() && cash.wf(),
            OrderFlowView::AwaitSubAsset { ctx, price, proceeds, cash } =>
                ctx.quantity.wf() && price.wf() && proceeds.wf() && cash.wf(),
            OrderFlowView::AwaitSetCash { ctx, price, .. } => ctx.quantity.wf() && price.wf(),
            OrderFlowView::AwaitAddAsset { ctx, price } => ctx.quantity.wf() && price.wf(),
            OrderFlowView::AwaitInsert => true,
            OrderFlowView::AwaitCommit { order } => order_wf(order),
            OrderFlowView::Finished => true,
        }
    }
}

/// A piece of outside work the caller must do next.
#[derive(Debug)]
pub enum OrderAction {
    /// Look up the user's order with this idempotency key (inside the
    /// transaction when `locked`).
    FindByKey { user_id: u128, client_order_id: String, locked: bool },
    /// Read the user's balance of `symbol` (inside the transaction when `locked`).
    FetchHeld { user_id: u128, symbol: String, locked: bool },
    /// Ask the market service for the price of `symbol`.
    FetchPrice { symbol: String },
    /// Begin a transaction and load the user's row with `SELECT ... FOR UPDATE`.
    LockUser { user_id: u128 },
    /// Set the user's cash balance.
    SetCash { user_id: u128, cash: Amount },
    /// Increase the user's balance of `symbol`.
    AddAsset { user_id: u128, symbol: String, quantity: Amount },
    /// Decrease the user's balance of `symbol`.
    SubAsset { user_id: u128, symbol: String, quantity: Amount },
    /// Store an order.
    Insert { record: NewOrder },
    /// Commit the transaction.
    Commit,
    /// Answer the request with this status and order (the transaction, if
    /// any is still open, is dropped).
    Respond { status: u16, order: Order },
    /// Answer the request with this error (the transaction, if any, is dropped).
    Fail { error: HttpException },
}

/// The mathematical view of an [`OrderAction`].
pub enum OrderActionView {
    FindByKey { user_id: u128, client_order_id: Seq<char>, locked: bool },
    FetchHeld { user_id: u128, symbol: Seq<char>, locked: bool },
    FetchPrice { symbol: Seq<char> },
    LockUser { user_id: u128 },
    SetCash { user_id: u128, cash: Amount },
    AddAsset { user_id: u128, symbol: Seq<char>, quantity: Amount },
    SubAsset { user_id: u128, symbol: Seq<char>, quantity: Amount },
    Insert { record: NewOrderView },
    Commit,
    Respond { status: u16, order: OrderView },
    Fail { error: HttpExceptionView },
}

impl View for OrderAction {
    type V = OrderActionView;

    open spec fn view(&self) -> OrderActionView {
        match self {
            OrderAction::FindByKey { user_id, client_order_id, locked } =>
                OrderActionView::FindByKey { user_id: *user_id, client_order_id: client_order_id@, locked: *locked },
            OrderAction::FetchHeld { user_id, symbol, locked } =>
                OrderActionView::FetchHeld { user_id: *user_id, symbol: symbol@, locked: *locked },
            OrderAction::FetchPrice { symbol } => OrderActionView::FetchPrice { symbol: symbol@ },
            OrderAction::LockUser { user_id } => OrderActionView::LockUser { user_id: *user_id },
            OrderAction::SetCash { user_id, cash } => OrderActionView::SetCash { user_id: *user_id, cash: *cash },
            OrderAction::AddAsset { user_id, symbol, quantity } =>
                OrderActionView::AddAsset { user_id: *user_id, symbol: symbol@, quantity: *quantity },
            OrderAction::SubAsset { user_id, symbol, quantity } =>
                OrderActionView::SubAsset { user_id: *user_id, symbol: symbol@, quantity: *quantity },
            OrderAction::Insert { record } => OrderActionView::Insert { record: record@ },
            OrderAction::Commit => OrderActionView::Commit,
            OrderAction::Respond { status, order } => OrderActionView::Respond { status: *status, order: order@ },
            OrderAction::Fail { error } => OrderActionView::Fail { error: error@ },
        }
    }
}

/// The outcome of the last piece of outside work.
#[derive(Debug)]
pub enum OrderEvent {
    /// The order stored under the key, if any.
    Found(Option<Order>),
    /// The held quantity of the symbol, if the user has a balance of it.
    Held(Option<Amount>),
    /// The market price, or why it could not be had.
    Priced(Result<Amount, PriceError>),
    /// The user's cash balance from the locked row, or `None` if there is no such user.
    Locked(Option<Amount>),
    /// A balance was written.
    Written,
    /// The order as stored.
    Inserted(Order),
    /// The transaction committed.
    Committed,
    /// A database query failed.
    DbFailed(AppErr),
    /// Beginning or committing the transaction failed, with this text.
    TxnFailed(String),
}

/// The mathematical view of an [`OrderEvent`].
pub enum OrderEventView {
    Found(Option<OrderView>),
    Held(Option<Amount>),
    Priced(Result<Amount, PriceError>),
    Locked(Option<Amount>),
    Written,
    Inserted(OrderView),
    Committed,
    DbFailed(AppErrView),
    TxnFailed(Seq<char>),
}

impl View for OrderEvent {
    type V = OrderEventView;

    open spec fn view(&self) -> OrderEventView {
        match self {
            OrderEvent::Found(o) => OrderEventView::Found(
                match o {
                    Some(x) => Some(x@),
                    None => None,
                },
            ),
            OrderEvent::Held(h) => OrderEventView::Held(*h),
            OrderEvent::Priced(p) => OrderEventView::Priced(*p),
            OrderEvent::Locked(c) => OrderEventView::Locked(*c),
            OrderEvent::Written => OrderEventView::Written,
            OrderEvent::Inserted(o) => OrderEventView::Inserted(o@),
            OrderEvent::Committed => OrderEventView::Committed,
            OrderEvent::DbFailed(e) => OrderEventView::DbFailed(e@),
            OrderEvent::TxnFailed(m) => OrderEventView::TxnFailed(m@),
        }
    }
}

/// Amounts read from the database or the market service are ones
/// `rust_decimal` represents.
pub open spec fn event_wf(e: OrderEventView) -> bool {
    match e {
        OrderEventView::Found(Some(o)) => order_wf(o),
        OrderEventView::Held(Some(h)) => h.wf(),
        OrderEventView::Priced(Ok(p)) => p.wf(),
        OrderEventView::Locked(Some(c)) => c.wf(),
        OrderEventView::Inserted(o) => order_wf(o),
        _ => true,
    }
}

/// A read balance, zero where there is none.
pub open spec fn held_amount(h: Option<Amount>) -> Amount {
    match h {
        Some(x) => x,
        None => Amount { mantissa: 0, scale: 0 },
    }
}

/// A sell about to credit its proceeds does so from non-negative amounts: the
/// cash balance read under the lock and the proceeds.
pub open spec fn sell_inputs_nonneg(f: OrderFlowView) -> bool {
    match f {
        OrderFlowView::AwaitSubAsset { cash, proceeds, .. } => cash@.0 >= 0 && proceeds@.0 >= 0,
        _ => true,
    }
}

/// The reject reason recorded when a price lookup fails.
pub open spec fn reason_for(e: PriceError) -> RejectReason {
    match e {
        PriceError::Unavailable => RejectReason::MarketServiceUnavailable,
        PriceError::InvalidSymbol => RejectReason::InvalidSymbol,
    }
}

/// Maps a failed price lookup to the reason the order is rejected with.
pub fn reject_reason_for(e: PriceError) -> (r: RejectReason)
    ensures
        r == reason_for(e),
{
    match e {
        PriceError::Unavailable => RejectReason::MarketServiceUnavailable,
        PriceError::InvalidSymbol => RejectReason::InvalidSymbol,
    }
}

/// The idempotency key of a request: the trimmed text, which must be
/// non-empty and at most 100 characters.
pub open spec fn key_check(raw: Seq<char>) -> Result<Seq<char>, HttpExceptionView> {
    let k = trim_spec(raw);
    if k.len() == 0 {
        Err(HttpExceptionView::BadRequest("client_order_id is required"@))
    } else if k.len() > MAX_CLIENT_ORDER_ID_LEN {
        Err(HttpExceptionView::BadRequest("client_order_id is too long"@))
    } else {
        Ok(k)
    }
}

/// Checks the idempotency key of a request.
pub fn validate_client_order_id(raw: &str) -> (r: Result<String, HttpException>)
    ensures
        match r {
            Ok(k) => key_check(raw@) == Ok::<Seq<char>, HttpExceptionView>(k@),
            Err(e) => key_check(raw@) == Err::<Seq<char>, HttpExceptionView>(e@),
        },
{
    let k = trim(raw);
    let n: usize = char_count(k.as_str());
    if n == 0 {
        Err(HttpException::bad_request("client_order_id is required"))
    } else if n > MAX_CLIENT_ORDER_ID_LEN {
        Err(HttpException::bad_request("client_order_id is too long"))
    } else {
        Ok(k)
    }
}

/// The validated order of a request whose key was not seen before: the
/// trimmed lowercase symbol, which must be non-empty, and the trimmed
/// quantity, which must be a positive decimal number.
pub open spec fn payload_check(user_id: u128, key: Seq<char>, req: CreateOrderRequestView) -> Result<
    OrderCtxView,
    HttpExceptionView,
> {
    let symbol = unicode_lowercase(trim_spec(req.symbol));
    if symbol.len() == 0 {
        Err(HttpExceptionView::BadRequest("symbol is required"@))
    } else {
        match decimal_parse(trim_spec(req.quantity)) {
            Err(_) => Err(HttpExceptionView::BadRequest("quantity must be a valid number"@)),
            Ok(q) => if !value_lt((0int, 0nat), q) {
                Err(HttpExceptionView::BadRequest("quantity must be greater than 0"@))
            } else {
                Ok(OrderCtxView { user_id, client_order_id: key, symbol, quantity: amount_of(q) })
            },
        }
    }
}

/// Validates the rest of a request once its key is known to be fresh.
pub fn validate_order_payload(user_id: u128, key: String, req: &CreateOrderRequest) -> (r: Result<
    OrderCtx,
    HttpException,
>)
    ensures
        match r {
            Ok(c) => payload_check(user_id, key@, req@) == Ok::<OrderCtxView, HttpExceptionView>(c@)
                && c.quantity.wf(),
            Err(e) => payload_check(user_id, key@, req@) == Err::<OrderCtxView, HttpExceptionView>(e@),
        },
{
    let trimmed = trim(req.symbol.as_str());
    let symbol = to_lowercase(trimmed.as_str());
    if char_count(symbol.as_str()) == 0 {
        return Err(HttpException::bad_request("symbol is required"));
    }
    let qty_text = trim(req.quantity.as_str());
    match parse(qty_text.as_str()) {
        Err(_) => Err(HttpException::bad_request("quantity must be a valid number")),
        Ok(q) => {
            if !Amount::zero().less_than(q) {
                Err(HttpException::bad_request("quantity must be greater than 0"))
            } else {
                proof {
                    crate::decimal::lemma_amount_of_view(q);
                }
                Ok(OrderCtx { user_id, client_order_id: key, symbol, quantity: q })
            }
        },
    }
}

/// The answer to an event the state does not expect.
pub open spec fn unexpected() -> (OrderFlowView, OrderActionView) {
    (OrderFlowView::Finished, OrderActionView::Fail { error: HttpExceptionView::Internal("unexpected event"@) })
}

/// Ends the flow with an error.
pub open spec fn fail_with(e: HttpExceptionView) -> (OrderFlowView, OrderActionView) {
    (OrderFlowView::Finished, OrderActionView::Fail { error: e })
}

/// Locks the user's row before acting on `plan`.
pub open spec fn lock_for(ctx: OrderCtxView, side: OrderSide, plan: Plan) -> (OrderFlowView, OrderActionView) {
    (OrderFlowView::AwaitLock { ctx, side, plan }, OrderActionView::LockUser { user_id: ctx.user_id })
}

/// Stores the order as rejected for `reason`.
pub open spec fn insert_rejected(ctx: OrderCtxView, side: OrderSide, reason: RejectReason) -> (
    OrderFlowView,
    OrderActionView,
) {
    (
        OrderFlowView::AwaitInsert,
        OrderActionView::Insert {
            record: new_order_spec(ctx, side, OrderStatus::Rejected, None, Some(reason)),
        },
    )
}

/// Stores the order as executed at `price`.
pub open spec fn insert_executed(ctx: OrderCtxView, side: OrderSide, price: Amount) -> (
    OrderFlowView,
    OrderActionView,
) {
    (
        OrderFlowView::AwaitInsert,
        OrderActionView::Insert {
            record: new_order_spec(ctx, side, OrderStatus::Executed, Some(price), None),
        },
    )
}

/// A validated buy starts by asking the market for the price.
pub open spec fn buy_start(ctx: OrderCtxView) -> (OrderFlowView, OrderActionView) {
    (OrderFlowView::AwaitPrice { ctx, side: OrderSide::Buy }, OrderActionView::FetchPrice { symbol: ctx.symbol })
}

/// A validated sell starts by reading the user's holding of the symbol,
/// before any lock, so an obvious shortfall is rejected without pricing.
pub open spec fn sell_start(ctx: OrderCtxView) -> (OrderFlowView, OrderActionView) {
    (
        OrderFlowView::AwaitHeld { ctx },
        OrderActionView::FetchHeld { user_id: ctx.user_id, symbol: ctx.symbol, locked: false },
    )
}

/// The first state and action for a request placed by the holder of the
/// token subject `sub`.
pub open spec fn flow_start(sub: Seq<char>, req: CreateOrderRequestView) -> (OrderFlowView, OrderActionView) {
    match uuid_parse(sub) {
        None => fail_with(HttpExceptionView::Internal("invalid user id in token"@)),
        Some(user_id) => match key_check(req.client_order_id) {
            Err(e) => fail_with(e),
            Ok(key) => (
                OrderFlowView::AwaitFastReplay { user_id, client_order_id: key, req },
                OrderActionView::FindByKey { user_id, client_order_id: key, locked: false },
            ),
        },
    }
}

/// The next state and action, from the state and the outcome of the last action.
pub open spec fn flow_step(f: OrderFlowView, e: OrderEventView) -> (OrderFlowView, OrderActionView) {
    if f is Finished {
        unexpected()
    } else {
        match e {
            OrderEventView::DbFailed(a) => fail_with(HttpExceptionView::App(a)),
            OrderEventView::TxnFailed(m) => fail_with(HttpExceptionView::Internal(m)),
            _ => flow_advance(f, e),
        }
    }
}

/// [`flow_step`] on the events that are neither failures nor unexpected in `Finished`.
pub open spec fn flow_advance(f: OrderFlowView, e: OrderEventView) -> (OrderFlowView, OrderActionView) {
    match f {
        OrderFlowView::AwaitFastReplay { user_id, client_order_id, req } => match e {
            OrderEventView::Found(Some(o)) => (OrderFlowView::Finished, OrderActionView::Respond { status: 200, order: o }),
            OrderEventView::Found(None) => match payload_check(user_id, client_order_id, req) {
                Err(err) => fail_with(err),
                Ok(ctx) => match req.side {
                    OrderSide::Buy => buy_start(ctx),
                    OrderSide::Sell => sell_start(ctx),
                },
            },
            _ => unexpected(),
        },
        OrderFlowView::AwaitHeld { ctx } => match e {
            OrderEventView::Held(h) => {
                let held = match h {
                    Some(x) => x,
                    None => Amount { mantissa: 0, scale: 0 },
                };
                if value_lt(held@, ctx.quantity@) {
                    lock_for(ctx, OrderSide::Sell, Plan::Reject(RejectReason::InsufficientAsset))
                } else {
                    (
                        OrderFlowView::AwaitPrice { ctx, side: OrderSide::Sell },
                        OrderActionView::FetchPrice { symbol: ctx.symbol },
                    )
                }
            },
            _ => unexpected(),
        },
        OrderFlowView::AwaitPrice { ctx, side } => match e {
            OrderEventView::Priced(Err(pe)) => lock_for(ctx, side, Plan::Reject(reason_for(pe))),
            OrderEventView::Priced(Ok(p)) => match decimal_mul(p@, ctx.quantity@) {
                None => fail_with(HttpExceptionView::App(AppErrView::Custom("value is too large"@))),
                Some(t) => match side {
                    OrderSide::Buy => lock_for(ctx, side, Plan::Buy { price: p, total: amount_of(t) }),
                    OrderSide::Sell => lock_for(ctx, side, Plan::Sell { price: p, proceeds: amount_of(t) }),
                },
            },
            _ => unexpected(),
        },
        OrderFlowView::AwaitLock { ctx, side, plan } => match e {
            OrderEventView::Locked(None) => fail_with(HttpExceptionView::Internal("user not found"@)),
            OrderEventView::Locked(Some(cash)) => (
                OrderFlowView::AwaitReplay { ctx, side, plan, cash },
                OrderActionView::FindByKey { user_id: ctx.user_id, client_order_id: ctx.client_order_id, locked: true },
            ),
            _ => unexpected(),
        },
        OrderFlowView::AwaitReplay { ctx, side, plan, cash } => match e {
            OrderEventView::Found(Some(o)) => (OrderFlowView::Finished, OrderActionView::Respond { status: 200, order: o }),
            OrderEventView::Found(None) => match plan {
                Plan::Reject(r) => insert_rejected(ctx, side, r),
                Plan::Buy { price, total } => if value_lt(cash@, total@) {
                    insert_rejected(ctx, side, RejectReason::InsufficientCash)
                } else {
                    match decimal_sub(cash@, total@) {
                        None => fail_with(HttpExceptionView::Internal("cash balance underflow"@)),
                        Some(nc) => (
                            OrderFlowView::AwaitSetCash { ctx, side: OrderSide::Buy, price },
                            OrderActionView::SetCash { user_id: ctx.user_id, cash: amount_of(nc) },
                        ),
                    }
                },
                Plan::Sell { price, proceeds } => (
                    OrderFlowView::AwaitLockedHeld { ctx, price, proceeds, cash },
                    OrderActionView::FetchHeld { user_id: ctx.user_id, symbol: ctx.symbol, locked: true },
                ),
            },
            _ => unexpected(),
        },
        OrderFlowView::AwaitLockedHeld { ctx, price, proceeds, cash } => match e {
            OrderEventView::Held(h) => {
                let held = match h {
                    Some(x) => x,
                    None => Amount { mantissa: 0, scale: 0 },
                };
                if value_lt(held@, ctx.quantity@) {
                    insert_rejected(ctx, OrderSide::Sell, RejectReason::InsufficientAsset)
                } else {
                    (
                        OrderFlowView::AwaitSubAsset { ctx, price, proceeds, cash },
                        OrderActionView::SubAsset { user_id: ctx.user_id, symbol: ctx.symbol, quantity: ctx.quantity },
                    )
                }
            },
            _ => unexpected(),
        },
        OrderFlowView::AwaitSubAsset { ctx, price, proceeds, cash } => match e {
            OrderEventView::Written => match decimal_add(cash@, proceeds@) {
                None => fail_with(HttpExceptionView::Internal("cash balance overflow"@)),
                Some(nc) => (
                    OrderFlowView::AwaitSetCash { ctx, side: OrderSide::Sell, price },
                    OrderActionView::SetCash { user_id: ctx.user_id, cash: amount_of(nc) },
                ),
            },
            _ => unexpected(),
        },
        OrderFlowView::AwaitSetCash { ctx, side, price } => match e {
            OrderEventView::Written => match side {
                OrderSide::Buy => (
                    OrderFlowView::AwaitAddAsset { ctx, price },
                    OrderActionView::AddAsset { user_id: ctx.user_id, symbol: ctx.symbol, quantity: ctx.quantity },
                ),
                OrderSide::Sell => insert_executed(ctx, OrderSide::Sell, price),
            },
            _ => unexpected(),
        },
        OrderFlowView::AwaitAddAsset { ctx, price } => match e {
            OrderEventView::Written => insert_executed(ctx, OrderSide::Buy, price),
            _ => unexpected(),
        },
        OrderFlowView::AwaitInsert => match e {
            OrderEventView::Inserted(o) => (OrderFlowView::AwaitCommit { order: o }, OrderActionView::Commit),
            _ => unexpected(),
        },
        OrderFlowView::AwaitCommit { order } => match e {
            OrderEventView::Committed => (OrderFlowView::Finished, OrderActionView::Respond { status: 201, order }),
            _ => unexpected(),
        },
        OrderFlowView::Finished => unexpected(),
    }
}

/// Ends the flow with an error.
fn fail(error: HttpException) -> (r: (OrderFlow, OrderAction))
    ensures
        (r.0@, r.1@) == fail_with(error@),
{
    (OrderFlow::Finished, OrderAction::Fail { error })
}

/// Answers an event the state does not expect.
fn fail_unexpected() -> (r: (OrderFlow, OrderAction))
    ensures
        (r.0@, r.1@) == unexpected(),
{
    fail(HttpException::internal("unexpected event"))
}

/// Locks the user's row before acting on `plan`.
fn lock(ctx: OrderCtx, side: OrderSide, plan: Plan) -> (r: (OrderFlow, OrderAction))
    ensures
        (r.0@, r.1@) == lock_for(ctx@, side, plan),
{
    let user_id = ctx.user_id;
    (OrderFlow::AwaitLock { ctx, side, plan }, OrderAction::LockUser { user_id })
}

/// Stores the order as rejected for `reason`.
fn reject(ctx: &OrderCtx, side: OrderSide, reason: RejectReason) -> (r: (OrderFlow, OrderAction))
    ensures
        (r.0@, r.1@) == insert_rejected(ctx@, side, reason),
{
    let order = new_order(ctx, side, OrderStatus::Rejected, None, Some(reason));
    (OrderFlow::AwaitInsert, OrderAction::Insert { record: order })
}

/// Stores the order as executed at `price`.
fn execute(ctx: &OrderCtx, side: OrderSide, price: Amount) -> (r: (OrderFlow, OrderAction))
    ensures
        (r.0@, r.1@) == insert_executed(ctx@, side, price),
{
    let order = new_order(ctx, side, OrderStatus::Executed, Some(price), None);
    (OrderFlow::AwaitInsert, OrderAction::Insert { record: order })
}

/// Executes a validated buy: first asks the market for the price.
pub fn execute_buy(ctx: OrderCtx) -> (r: (OrderFlow, OrderAction))
    requires
        ctx.quantity.wf(),
    ensures
        (r.0@, r.1@) == buy_start(ctx@),
        r.0.wf(),
{
    let symbol = ctx.symbol.clone();
    (OrderFlow::AwaitPrice { ctx, side: OrderSide::Buy }, OrderAction::FetchPrice { symbol })
}

/// Executes a validated sell: first reads the user's holding of the symbol.
pub fn execute_sell(ctx: OrderCtx) -> (r: (OrderFlow, OrderAction))
    requires
        ctx.quantity.wf(),
    ensures
        (r.0@, r.1@) == sell_start(ctx@),
        r.0.wf(),
{
    let symbol = ctx.symbol.clone();
    let user_id = ctx.user_id;
    (OrderFlow::AwaitHeld { ctx }, OrderAction::FetchHeld { user_id, symbol, locked: false })
}

/// Starts placing the order `req` for the holder of the token subject `sub`:
/// checks the user id and the idempotency key, then looks the key up.
pub fn start(sub: &str, req: CreateOrderRequest) -> (r: (OrderFlow, OrderAction))
    ensures
        (r.0@, r.1@) == flow_start(sub@, req@),
        r.0.wf(),
{
    match parse_uuid(sub) {
        None => fail(HttpException::internal("invalid user id in token")),
        Some(user_id) => match validate_client_order_id(req.client_order_id.as_str()) {
            Err(e) => fail(e),
            Ok(key) => {
                let lookup = key.clone();
                (
                    OrderFlow::AwaitFastReplay { user_id, client_order_id: key, req },
                    OrderAction::FindByKey { user_id, client_order_id: lookup, locked: false },
                )
            },
        },
    }
}

impl OrderFlow {
    /// Takes the outcome of the last action and gives the next state and action.
    /// Cash balances it writes are never negative: a buy pays only out of a
    /// balance that covers the total, and a sell adds its proceeds (those of a
    /// non-negative price) to the non-negative balance read under the lock.
    /// Assets are taken only once the holding read under the lock covers the
    /// quantity. A buy whose non-negative total the cash read under the lock
    /// covers is executed (the cash is written); an order found under the
    /// key once the lock is held is replayed with 200 and nothing is written.
    pub fn step(self, ev: OrderEvent) -> (r: (OrderFlow, OrderAction))
        requires
            self.wf(),
            event_wf(ev@),
        ensures
            (r.0@, r.1@) == flow_step(self@, ev@),
            r.0.wf(),
            r.1@ matches OrderActionView::Respond { order, .. } ==> order_wf(order),
            sell_inputs_nonneg(self@) ==> (r.1@ matches OrderActionView::SetCash { cash, .. } ==> cash@.0 >= 0),
            r.0@ matches OrderFlowView::AwaitLock { ctx, plan: Plan::Sell { price, proceeds }, .. } ==> (price@.0 >= 0
                && ctx.quantity@.0 >= 0 ==> proceeds@.0 >= 0),
            r.1@ matches OrderActionView::SubAsset { quantity, .. } ==> (self@ is AwaitLockedHeld && (ev@ matches OrderEventView::Held(
                h,
            ) && !value_lt(held_amount(h)@, quantity@))),
            self@ matches OrderFlowView::AwaitReplay { plan: Plan::Buy { total, .. }, cash, .. } ==> (ev@
                == OrderEventView::Found(None) && cash@.0 >= 0 && total@.0 >= 0 && !value_lt(cash@, total@)
                ==> r.1@ is SetCash),
            self@ is AwaitReplay ==> (ev@ matches OrderEventView::Found(Some(o)) ==> (r.1@
                == OrderActionView::Respond { status: 200, order: o } && r.0@ is Finished)),
    {
        if let OrderFlow::Finished = self {
            return fail_unexpected();
        }
        match ev {
            OrderEvent::DbFailed(a) => fail(HttpException::App(a)),
            OrderEvent::TxnFailed(m) => fail(HttpException::Internal { msg: m }),
            other => self.advance(other),
        }
    }

    fn advance(self, ev: OrderEvent) -> (r: (OrderFlow, OrderAction))
        requires
            self.wf(),
            event_wf(ev@),
            !(self@ is Finished),
            !(ev@ is DbFailed),
            !(ev@ is TxnFailed),
        ensures
            (r.0@, r.1@) == flow_advance(self@, ev@),
            r.0.wf(),
            r.1@ matches OrderActionView::Respond { order, .. } ==> order_wf(order),
            sell_inputs_nonneg(self@) ==> (r.1@ matches OrderActionView::SetCash { cash, .. } ==> cash@.0 >= 0),
            r.0@ matches OrderFlowView::AwaitLock { ctx, plan: Plan::Sell { price, proceeds }, .. } ==> (price@.0 >= 0
                && ctx.quantity@.0 >= 0 ==> proceeds@.0 >= 0),
            r.1@ matches OrderActionView::SubAsset { quantity, .. } ==> (self@ is AwaitLockedHeld && (ev@ matches OrderEventView::Held(
                h,
            ) && !value_lt(held_amount(h)@, quantity@))),
            self@ matches OrderFlowView::AwaitReplay { plan: Plan::Buy { total, .. }, cash, .. } ==> (ev@
                == OrderEventView::Found(None) && cash@.0 >= 0 && total@.0 >= 0 && !value_lt(cash@, total@)
                ==> r.1@ is SetCash),
            self@ is AwaitReplay ==> (ev@ matches OrderEventView::Found(Some(o)) ==> (r.1@
                == OrderActionView::Respond { status: 200, order: o } && r.0@ is Finished)),
    {
        match self {
            OrderFlow::AwaitFastReplay { user_id, client_order_id, req } => match ev {
                OrderEvent::Found(Some(o)) => (OrderFlow::Finished, OrderAction::Respond { status: 200, order: o }),
                OrderEvent::Found(None) => match validate_order_payload(user_id, client_order_id, &req) {
                    Err(err) => fail(err),
                    Ok(ctx) => match req.side {
                        OrderSide::Buy => execute_buy(ctx),
                        OrderSide::Sell => execute_sell(ctx),
                    },
                },
                _ => fail_unexpected(),
            },
            OrderFlow::AwaitHeld { ctx } => match ev {
                OrderEvent::Held(h) => {
                    let held = match h {
                        Some(x) => x,
                        None => Amount::zero(),
                    };
                    if held.less_than(ctx.quantity) {
                        lock(ctx, OrderSide::Sell, Plan::Reject(RejectReason::InsufficientAsset))
                    } else {
                        let symbol = ctx.symbol.clone();
                        (OrderFlow::AwaitPrice { ctx, side: OrderSide::Sell }, OrderAction::FetchPrice { symbol })
                    }
                },
                _ => fail_unexpected(),
            },
            OrderFlow::AwaitPrice { ctx, side } => match ev {
                OrderEvent::Priced(Err(pe)) => lock(ctx, side, Plan::Reject(reject_reason_for(pe))),
                OrderEvent::Priced(Ok(p)) => match p.checked_mul(ctx.quantity) {
                    None => fail(HttpException::App(AppErr::custom("value is too large"))),
                    Some(t) => {
                        proof {
                            crate::decimal::lemma_amount_of_view(t);
                        }
                        match side {
                            OrderSide::Buy => lock(ctx, side, Plan::Buy { price: p, total: t }),
                            OrderSide::Sell => lock(ctx, side, Plan::Sell { price: p, proceeds: t }),
                        }
                    },
                },
                _ => fail_unexpected(),
            },
            OrderFlow::AwaitLock { ctx, side, plan } => match ev {
                OrderEvent::Locked(None) => fail(HttpException::internal("user not found")),
                OrderEvent::Locked(Some(cash)) => {
                    let user_id = ctx.user_id;
                    let key = ctx.client_order_id.clone();
                    (
                        OrderFlow::AwaitReplay { ctx, side, plan, cash },
                        OrderAction::FindByKey { user_id, client_order_id: key, locked: true },
                    )
                },
                _ => fail_unexpected(),
            },
            OrderFlow::AwaitReplay { ctx, side, plan, cash } => match ev {
                OrderEvent::Found(Some(o)) => (OrderFlow::Finished, OrderAction::Respond { status: 200, order: o }),
                OrderEvent::Found(None) => match plan {
                    Plan::Reject(r) => reject(&ctx, side, r),
                    Plan::Buy { price, total } => {
                        if cash.less_than(total) {
                            reject(&ctx, side, RejectReason::InsufficientCash)
                        } else {
                            match cash.checked_sub(total) {
                                None => fail(HttpException::internal("cash balance underflow")),
                                Some(nc) => {
                                    proof {
                                        crate::decimal::lemma_amount_of_view(nc);
                                    }
                                    let user_id = ctx.user_id;
                                    (
                                        OrderFlow::AwaitSetCash { ctx, side: OrderSide::Buy, price },
                                        OrderAction::SetCash { user_id, cash: nc },
                                    )
                                },
                            }
                        }
                    },
                    Plan::Sell { price, proceeds } => {
                        let user_id = ctx.user_id;
                        let symbol = ctx.symbol.clone();
                        (
                            OrderFlow::AwaitLockedHeld { ctx, price, proceeds, cash },
                            OrderAction::FetchHeld { user_id, symbol, locked: true },
                        )
                    },
                },
                _ => fail_unexpected(),
            },
            OrderFlow::AwaitLockedHeld { ctx, price, proceeds, cash } => match ev {
                OrderEvent::Held(h) => {
                    let held = match h {
                        Some(x) => x,
                        None => Amount::zero(),
                    };
                    if held.less_than(ctx.quantity) {
                        reject(&ctx, OrderSide::Sell, RejectReason::InsufficientAsset)
                    } else {
                        let user_id = ctx.user_id;
                        let symbol = ctx.symbol.clone();
                        let quantity = ctx.quantity;
                        (
                            OrderFlow::AwaitSubAsset { ctx, price, proceeds, cash },
                            OrderAction::SubAsset { user_id, symbol, quantity },
                        )
                    }
                },
                _ => fail_unexpected(),
            },
            OrderFlow::AwaitSubAsset { ctx, price, proceeds, cash } => match ev {
                OrderEvent::Written => match cash.checked_add(proceeds) {
                    None => fail(HttpException::internal("cash balance overflow")),
                    Some(nc) => {
                        proof {
                            crate::decimal::lemma_amount_of_view(nc);
                        }
                        let user_id = ctx.user_id;
                        (
                            OrderFlow::AwaitSetCash { ctx, side: OrderSide::Sell, price },
                            OrderAction::SetCash { user_id, cash: nc },
                        )
                    },
                },
                _ => fail_unexpected(),
            },
            OrderFlow::AwaitSetCash { ctx, side, price } => match ev {
                OrderEvent::Written => match side {
                    OrderSide::Buy => {
                        let user_id = ctx.user_id;
                        let symbol = ctx.symbol.clone();
                        let quantity = ctx.quantity;
                        (
                            OrderFlow::AwaitAddAsset { ctx, price },
                            OrderAction::AddAsset { user_id, symbol, quantity },
                        )
                    },
                    OrderSide::Sell => execute(&ctx, OrderSide::Sell, price),
                },
                _ => fail_unexpected(),
            },
            OrderFlow::AwaitAddAsset { ctx, price } => match ev {
                OrderEvent::Written => execute(&ctx, OrderSide::Buy, price),
                _ => fail_unexpected(),
            },
            OrderFlow::AwaitInsert => match ev {
                OrderEvent::Inserted(o) => (OrderFlow::AwaitCommit { order: o }, OrderAction::Commit),
                _ => fail_unexpected(),
            },
            OrderFlow::AwaitCommit { order } => match ev {
                OrderEvent::Committed => (OrderFlow::Finished, OrderAction::Respond { status: 201, order }),
                _ => fail_unexpected(),
            },
            OrderFlow::Finished => fail_unexpected(),
        }
    }
}

/// An idempotency key is accepted exactly when its trimmed text has 1 to 100
/// characters, and the key is that trimmed text; an empty one is required,
/// a longer one too long.
pub proof fn law_key_check(raw: Seq<char>)
    ensures
        key_check(raw) is Ok <==> 1 <= trim_spec(raw).len() <= 100,
        key_check(raw) matches Ok(k) ==> k == trim_spec(raw),
        trim_spec(raw).len() == 0 ==> key_check(raw) == Err::<Seq<char>, HttpExceptionView>(
            HttpExceptionView::BadRequest("client_order_id is required"@),
        ),
        trim_spec(raw).len() > 100 ==> key_check(raw) == Err::<Seq<char>, HttpExceptionView>(
            HttpExceptionView::BadRequest("client_order_id is too long"@),
        ),
{
}

/// The rest of an order request is accepted exactly when its trimmed symbol
/// lowercases to a non-empty text and its trimmed quantity parses to a
/// positive number; the order then carries the user, the key, that lowercase
/// symbol and that number. Refusals, in order: an empty symbol, a quantity
/// that does not parse, a quantity of zero or less.
pub proof fn law_payload_check(user_id: u128, key: Seq<char>, req: CreateOrderRequestView)
    ensures
        payload_check(user_id, key, req) is Ok <==> (unicode_lowercase(trim_spec(req.symbol)).len() > 0 && decimal_parse(
            trim_spec(req.quantity),
        ) is Ok && decimal_parse(trim_spec(req.quantity))->Ok_0.0 > 0),
        payload_check(user_id, key, req) matches Ok(ctx) ==> (ctx == (OrderCtxView {
            user_id,
            client_order_id: key,
            symbol: unicode_lowercase(trim_spec(req.symbol)),
            quantity: amount_of(decimal_parse(trim_spec(req.quantity))->Ok_0),
        })),
        unicode_lowercase(trim_spec(req.symbol)).len() == 0 ==> payload_check(user_id, key, req) == Err::<
            OrderCtxView,
            HttpExceptionView,
        >(HttpExceptionView::BadRequest("symbol is required"@)),
        unicode_lowercase(trim_spec(req.symbol)).len() > 0 && decimal_parse(trim_spec(req.quantity)) is Err
            ==> payload_check(user_id, key, req) == Err::<OrderCtxView, HttpExceptionView>(
            HttpExceptionView::BadRequest("quantity must be a valid number"@),
        ),
        unicode_lowercase(trim_spec(req.symbol)).len() > 0 && decimal_parse(trim_spec(req.quantity)) is Ok
            && decimal_parse(trim_spec(req.quantity))->Ok_0.0 <= 0 ==> payload_check(user_id, key, req) == Err::<
            OrderCtxView,
            HttpExceptionView,
        >(HttpExceptionView::BadRequest("quantity must be greater than 0"@)),
{
}

/// A request starts by looking up its trimmed key for the token's user,
/// outside any lock, exactly when the token names a user and the key is
/// acceptable; otherwise it fails at once: first on the token, then on the key.
pub proof fn law_flow_start(sub: Seq<char>, req: CreateOrderRequestView)
    ensures
        uuid_parse(sub) matches Some(u) ==> (key_check(req.client_order_id) is Ok ==> flow_start(sub, req).1 == (
        OrderActionView::FindByKey { user_id: u, client_order_id: trim_spec(req.client_order_id), locked: false })),
        uuid_parse(sub) is None ==> flow_start(sub, req).1 == (OrderActionView::Fail {
            error: HttpExceptionView::Internal("invalid user id in token"@),
        }),
        uuid_parse(sub) is Some && key_check(req.client_order_id) is Err ==> flow_start(sub, req).1 == (
        OrderActionView::Fail { error: key_check(req.client_order_id)->Err_0 }),
{
}

} // verus!
