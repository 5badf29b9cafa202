//! Orders: their sides, outcomes and records, the request that places one,
//! and the response that describes one.

use vstd::prelude::*;

use crate::decimal::{decimal_text, Amount};
use crate::ids::{uuid_text, uuid_to_string};

verus! {

/// Buy or sell.
#[derive(Clone, Copy, Debug, PartialEq, Eq, Structural)]
pub enum OrderSide {
    Buy,
    Sell,
}

/// How a placed order ended.
#[derive(Clone, Copy, Debug, PartialEq, Eq, Structural)]
pub enum OrderStatus {
    Executed,
    Rejected,
}

/// Why an order was rejected.
#[derive(Clone, Copy, Debug, PartialEq, Eq, Structural)]
pub enum RejectReason {
    InsufficientCash,
    InsufficientAsset,
    MarketServiceUnavailable,
    InvalidSymbol,
}

/// A stored order.
#[derive(Debug)]
pub struct Order {
    pub id: u128,
    pub user_id: u128,
    pub client_order_id: String,
    pub symbol: String,
    pub side: OrderSide,
    pub quantity: Amount,
    pub price: Option<Amount>,
    pub status: OrderStatus,
    pub reject_reason: Option<RejectReason>,
    /// Creation time, in microseconds since the Unix epoch.
    pub created_at: i64,
}

/// The mathematical view of an [`Order`].
pub struct OrderView {
    pub id: u128,
    pub user_id: u128,
    pub client_order_id: Seq<char>,
    pub symbol: Seq<char>,
    pub side: OrderSide,
    pub quantity: Amount,
    pub price: Option<Amount>,
    pub status: OrderStatus,
    pub reject_reason: Option<RejectReason>,
    pub created_at: i64,
}

impl View for Order {
    type V = OrderView;

    open spec fn view(&self) -> OrderView {
        OrderView {
            id: self.id,
            user_id: self.user_id,
            client_order_id: self.client_order_id@,
            symbol: self.symbol@,
            side: self.side,
            quantity: self.quantity,
            price: self.price,
            status: self.status,
            reject_reason: self.reject_reason,
            created_at: self.created_at,
        }
    }
}

/// The view of an optional order.
pub open spec fn opt_order_view(o: Option<Order>) -> Option<OrderView> {
    match o {
        Some(x) => Some(x@),
        None => None,
    }
}

/// An order about to be stored.
#[derive(Debug)]
pub struct NewOrder {
    pub user_id: u128,
    pub client_order_id: String,
    pub symbol: String,
    pub side: OrderSide,
    pub quantity: Amount,
    pub status: OrderStatus,
    pub price: Option<Amount>,
    pub reject_reason: Option<RejectReason>,
}

/// The mathematical view of a [`NewOrder`].
pub struct NewOrderView {
    pub user_id: u128,
    pub client_order_id: Seq<char>,
    pub symbol: Seq<char>,
    pub side: OrderSide,
    pub quantity: Amount,
    pub status: OrderStatus,
    pub price: Option<Amount>,
    pub reject_reason: Option<RejectReason>,
}

impl View for NewOrder {
    type V = NewOrderView;

    open spec fn view(&self) -> NewOrderView {
        NewOrderView {
            user_id: self.user_id,
            client_order_id: self.client_order_id@,
            symbol: self.symbol@,
            side: self.side,
            quantity: self.quantity,
            status: self.status,
            price: self.price,
            reject_reason: self.reject_reason,
        }
    }
}

/// The validated order being placed: who places it, under which idempotency
/// key, on which (lowercase) symbol and for how much.
#[derive(Debug)]
pub struct OrderCtx {
    pub user_id: u128,
    pub client_order_id: String,
    pub symbol: String,
    pub quantity: Amount,
}

/// The mathematical view of an [`OrderCtx`].
pub struct OrderCtxView {
    pub user_id: u128,
    pub client_order_id: Seq<char>,
    pub symbol: Seq<char>,
    pub quantity: Amount,
}

impl View for OrderCtx {
    type V = OrderCtxView;

    open spec fn view(&self) -> OrderCtxView {
        OrderCtxView {
            user_id: self.user_id,
            client_order_id: self.client_order_id@,
            symbol: self.symbol@,
            quantity: self.quantity,
        }
    }
}

/// The order described by a context and the outcome of placing it.
pub open spec fn new_order_spec(
    ctx: OrderCtxView,
    side: OrderSide,
    status: OrderStatus,
    price: Option<Amount>,
    reject_reason: Option<RejectReason>,
) -> NewOrderView {
    NewOrderView {
        user_id: ctx.user_id,
        client_order_id: ctx.client_order_id,
        symbol: ctx.symbol,
        side,
        quantity: ctx.quantity,
        status,
        price,
        reject_reason,
    }
}

/// Builds the order to store from the request context plus the outcome.
pub fn new_order(
    ctx: &OrderCtx,
    side: OrderSide,
    status: OrderStatus,
    price: Option<Amount>,
    reject_reason: Option<RejectReason>,
) -> (r: NewOrder)
    ensures
        r@ == new_order_spec(ctx@, side, status, price, reject_reason),
{
    NewOrder {
        user_id: ctx.user_id,
        client_order_id: ctx.client_order_id.clone(),
        symbol: ctx.symbol.clone(),
        side,
        quantity: ctx.quantity,
        status,
        price,
        reject_reason,
    }
}

/// The body of `POST /orders`.
#[derive(Debug)]
pub struct CreateOrderRequest {
    pub symbol: String,
    pub side: OrderSide,
    pub quantity: String,
    pub client_order_id: String,
}

/// The mathematical view of a [`CreateOrderRequest`].
pub struct CreateOrderRequestView {
    pub symbol: Seq<char>,
    pub side: OrderSide,
    pub quantity: Seq<char>,
    pub client_order_id: Seq<char>,
}

impl View for CreateOrderRequest {
    type V = CreateOrderRequestView;

    open spec fn view(&self) -> CreateOrderRequestView {
        CreateOrderRequestView {
            symbol: self.symbol@,
            side: self.side,
            quantity: self.quantity@,
            client_order_id: self.client_order_id@,
        }
    }
}

/// How an order is described to clients.
#[derive(Debug)]
pub struct OrderResponse {
    pub id: String,
    pub user_id: String,
    pub client_order_id: String,
    pub symbol: String,
    pub side: OrderSide,
    pub quantity: String,
    pub price: Option<String>,
    pub status: OrderStatus,
    pub reject_reason: Option<RejectReason>,
    pub created_at: i64,
}

impl OrderResponse {
    /// Describes a stored order: identifiers and amounts as text, the rest as stored.
    pub fn from_order(order: Order) -> (r: OrderResponse)
        requires
            order.quantity.wf(),
            order.price matches Some(p) ==> p.wf(),
        ensures
            r.id@ == uuid_text(order.id),
            r.user_id@ == uuid_text(order.user_id),
            r.client_order_id@ == order.client_order_id@,
            r.symbol@ == order.symbol@,
            r.side == order.side,
            r.quantity@ == decimal_text(order.quantity@),
            r.price is Some <==> order.price is Some,
            r.price matches Some(t) ==> t@ == decimal_text(order.price->0@),
            r.status == order.status,
            r.reject_reason == order.reject_reason,
            r.created_at == order.created_at,
    {
        let price = match order.price {
            Some(p) => Some(p.to_text()),
            None => None,
        };
        OrderResponse {
            id: uuid_to_string(order.id),
            user_id: uuid_to_string(order.user_id),
            client_order_id: order.client_order_id,
            symbol: order.symbol,
            side: order.side,
            quantity: order.quantity.to_text(),
            price,
            status: order.status,
            reject_reason: order.reject_reason,
            created_at: order.created_at,
        }
    }
}

/// The order stored for a request carries the request's user, key, symbol
/// and quantity unchanged, with the side and outcome it was placed with.
pub proof fn law_new_order_keeps_the_request(
    ctx: OrderCtxView,
    side: OrderSide,
    status: OrderStatus,
    price: Option<Amount>,
    reject_reason: Option<RejectReason>,
)
    ensures
        ({
            let n = new_order_spec(ctx, side, status, price, reject_reason);
            &&& n.user_id == ctx.user_id
            &&& n.client_order_id == ctx.client_order_id
            &&& n.symbol == ctx.symbol
            &&& n.quantity == ctx.quantity
            &&& n.side == side
            &&& n.status == status
            &&& n.price == price
            &&& n.reject_reason == reject_reason
        }),
{
}

} // verus!
