//! What placing an order does to the accounts, over a model of the database.
//!
//! [`Db`] models the three tables the flow touches: cash balances, asset
//! balances and orders (with the unique index on user and idempotency key).
//! [`apply`] gives the outcome of each [`OrderActionView`] on the model, and
//! [`place`] runs [`flow_start`] and [`flow_step`] against it until the flow
//! answers. The run keeps the committed data apart from what the request's
//! transaction sees, so a request that does not commit leaves no write behind.
//! The laws below are proved over that run; they speak of the outcome of
//! `rust_decimal` arithmetic through its names. Requests running at the same
//! time are in [`crate::portfolio::order_concurrency`].

use vstd::prelude::*;

use crate::database::asset_balances::{add_plan, sub_plan, BalanceWrite};
use crate::decimal::{amount_of, decimal_add, decimal_mul, decimal_sub, repr_ok, value_lt, Amount};
use crate::ids::uuid_parse;
use crate::portfolio::exception::HttpExceptionView;
use crate::portfolio::market_client::PriceError;
use crate::portfolio::order_flow::{
    flow_start, flow_step, key_check, payload_check, reason_for, OrderActionView, OrderEventView, OrderFlowView,
};
use crate::portfolio::orders::{
    new_order_spec, CreateOrderRequestView, NewOrderView, OrderCtxView, OrderSide, OrderStatus, OrderView,
    RejectReason,
};
use crate::shared::result::AppErrView;

verus! {

/// The tables the order flow reads and writes.
pub struct Db {
    /// Cash balance of each user.
    pub cash: Map<u128, Amount>,
    /// Balance of each (user, symbol).
    pub holdings: Map<(u128, Seq<char>), Amount>,
    /// Stored orders, oldest first.
    pub orders: Seq<OrderView>,
}

/// The first stored order of `user` with idempotency key `key`.
pub open spec fn find_by_key(orders: Seq<OrderView>, user: u128, key: Seq<char>) -> Option<OrderView>
    decreases orders.len(),
{
    if orders.len() == 0 {
        None
    } else if orders[0].user_id == user && orders[0].client_order_id == key {
        Some(orders[0])
    } else {
        find_by_key(orders.drop_first(), user, key)
    }
}

/// The order as stored, with the identifier the database gives it.
pub open spec fn stored(n: NewOrderView, id: nat) -> OrderView {
    OrderView {
        id: id as u128,
        user_id: n.user_id,
        client_order_id: n.client_order_id,
        symbol: n.symbol,
        side: n.side,
        quantity: n.quantity,
        price: n.price,
        status: n.status,
        reject_reason: n.reject_reason,
        created_at: 0,
    }
}

/// The held quantity of a symbol, if the user has a balance of it.
pub open spec fn held(db: Db, user: u128, symbol: Seq<char>) -> Option<Amount> {
    if db.holdings.contains_key((user, symbol)) {
        Some(db.holdings[(user, symbol)])
    } else {
        None
    }
}

/// The action panics, so the request is never answered: a balance update
/// whose `rust_decimal` arithmetic overflows (the repositories add and
/// subtract with `Decimal`'s `+` and `-`, which panic on overflow).
pub open spec fn aborts(db: Db, a: OrderActionView) -> bool {
    match a {
        OrderActionView::AddAsset { user_id, symbol, quantity } => add_plan(held(db, user_id, symbol), quantity) is None,
        OrderActionView::SubAsset { user_id, symbol, quantity } => sub_plan(held(db, user_id, symbol), quantity) is None,
        _ => false,
    }
}

/// The outcome of an action on the database, given the market price of the
/// order's symbol. Asset balances are written as [`add_plan`] and [`sub_plan`]
/// plan (an update that overflows [`aborts`] the request instead).
pub open spec fn apply(db: Db, price: Result<Amount, PriceError>, a: OrderActionView) -> (Db, OrderEventView) {
    match a {
        OrderActionView::FindByKey { user_id, client_order_id, .. } =>
            (db, OrderEventView::Found(find_by_key(db.orders, user_id, client_order_id))),
        OrderActionView::FetchHeld { user_id, symbol, .. } => (db, OrderEventView::Held(held(db, user_id, symbol))),
        OrderActionView::FetchPrice { .. } => (db, OrderEventView::Priced(price)),
        OrderActionView::LockUser { user_id } => (
            db,
            OrderEventView::Locked(
                if db.cash.contains_key(user_id) {
                    Some(db.cash[user_id])
                } else {
                    None
                },
            ),
        ),
        OrderActionView::SetCash { user_id, cash } =>
            (Db { cash: db.cash.insert(user_id, cash), ..db }, OrderEventView::Written),
        OrderActionView::AddAsset { user_id, symbol, quantity } => (
            Db { holdings: holdings_after(db.holdings, user_id, symbol, add_plan(held(db, user_id, symbol), quantity)), ..db },
            OrderEventView::Written,
        ),
        OrderActionView::SubAsset { user_id, symbol, quantity } => (
            Db { holdings: holdings_after(db.holdings, user_id, symbol, sub_plan(held(db, user_id, symbol), quantity)), ..db },
            OrderEventView::Written,
        ),
        OrderActionView::Insert { record } => if find_by_key(db.orders, record.user_id, record.client_order_id) is Some {
            (db, OrderEventView::DbFailed(AppErrView::Database("duplicate key value violates unique constraint"@)))
        } else {
            let o = stored(record, db.orders.len());
            (Db { orders: db.orders.push(o), ..db }, OrderEventView::Inserted(o))
        },
        OrderActionView::Commit => (db, OrderEventView::Committed),
        OrderActionView::Respond { .. } => (db, OrderEventView::Committed),
        OrderActionView::Fail { .. } => (db, OrderEventView::Committed),
    }
}

/// How a request was answered: a status and an order, or an error.
pub type Answer = Result<(u16, OrderView), HttpExceptionView>;

/// Runs the flow from a state and its pending action for at most `fuel`
/// actions, giving the answer (if it came) and the committed database
/// afterwards. `db` is what the request sees (its own transaction's writes
/// included) and `saved` what is committed: `Commit` makes the writes
/// durable, and a request that ends otherwise (an error, a replay, a panic)
/// drops its transaction, so its writes are rolled back.
pub open spec fn run(
    f: OrderFlowView,
    a: OrderActionView,
    db: Db,
    saved: Db,
    price: Result<Amount, PriceError>,
    fuel: nat,
) -> (Option<Answer>, Db)
    decreases fuel,
{
    match a {
        OrderActionView::Respond { status, order } => (Some(Ok((status, order))), saved),
        OrderActionView::Fail { error } => (Some(Err(error)), saved),
        _ => if fuel == 0 || aborts(db, a) {
            (None, saved)
        } else {
            let (db2, ev) = apply(db, price, a);
            let (f2, a2) = flow_step(f, ev);
            let saved2 = if a is Commit { db2 } else { saved };
            run(f2, a2, db2, saved2, price, (fuel - 1) as nat)
        },
    }
}

/// Places the order `req` for the token subject `sub` against the database,
/// with `price` the market's answer for its symbol.
pub open spec fn place(sub: Seq<char>, req: CreateOrderRequestView, db: Db, price: Result<Amount, PriceError>) -> (
    Option<Answer>,
    Db,
) {
    let (f, a) = flow_start(sub, req);
    run(f, a, db, db, price, 12)
}

/// The user id of the token subject.
pub open spec fn user_of(sub: Seq<char>) -> u128 {
    uuid_parse(sub)->Some_0
}

/// The idempotency key of the request.
pub open spec fn key_of(req: CreateOrderRequestView) -> Seq<char> {
    key_check(req.client_order_id)->Ok_0
}

/// The validated order of the request.
pub open spec fn ctx_of(sub: Seq<char>, req: CreateOrderRequestView) -> OrderCtxView {
    payload_check(user_of(sub), key_of(req), req)->Ok_0
}

/// The request names a user and a well-formed key.
pub open spec fn well_addressed(sub: Seq<char>, req: CreateOrderRequestView) -> bool {
    &&& uuid_parse(sub) is Some
    &&& key_check(req.client_order_id) is Ok
}

/// The request is well-formed and its key is fresh for the user.
pub open spec fn fresh_valid(sub: Seq<char>, req: CreateOrderRequestView, db: Db) -> bool {
    &&& well_addressed(sub, req)
    &&& find_by_key(db.orders, user_of(sub), key_of(req)) is None
    &&& payload_check(user_of(sub), key_of(req), req) is Ok
}

/// A buy for which the user has the cash: the total is paid, the quantity is
/// credited, and the order is stored as executed at the market price.
pub proof fn law_buy_executes(sub: Seq<char>, req: CreateOrderRequestView, db: Db, price: Result<Amount, PriceError>)
    requires
        fresh_valid(sub, req, db),
        req.side == OrderSide::Buy,
        price is Ok,
        decimal_mul(price->Ok_0@, ctx_of(sub, req).quantity@) matches Some(t) && repr_ok(t),
        db.cash.contains_key(user_of(sub)),
        !value_lt(db.cash[user_of(sub)]@, decimal_mul(price->Ok_0@, ctx_of(sub, req).quantity@)->Some_0),
        decimal_sub(db.cash[user_of(sub)]@, decimal_mul(price->Ok_0@, ctx_of(sub, req).quantity@)->Some_0) matches Some(
            c,
        ) && repr_ok(c),
        held(db, user_of(sub), ctx_of(sub, req).symbol) matches Some(h) ==> decimal_add(
            h@,
            ctx_of(sub, req).quantity@,
        ) matches Some(s) && repr_ok(s),
    ensures
        ({
            let u = user_of(sub);
            let ctx = ctx_of(sub, req);
            let p = price->Ok_0;
            let total = decimal_mul(p@, ctx.quantity@)->Some_0;
            let new_cash = amount_of(decimal_sub(db.cash[u]@, total)->Some_0);
            let new_held = match held(db, u, ctx.symbol) {
                None => ctx.quantity,
                Some(h) => amount_of(decimal_add(h@, ctx.quantity@)->Some_0),
            };
            let o = stored(new_order_spec(ctx, OrderSide::Buy, OrderStatus::Executed, Some(p), None), db.orders.len());
            place(sub, req, db, price) == (
                Some(Ok::<(u16, OrderView), HttpExceptionView>((201u16, o))),
                Db {
                    cash: db.cash.insert(u, new_cash),
                    holdings: db.holdings.insert((u, ctx.symbol), new_held),
                    orders: db.orders.push(o),
                },
            )
        }),
{
    let u = user_of(sub);
    let k = key_of(req);
    let ctx = ctx_of(sub, req);
    let (f0, a0) = flow_start(sub, req);
    assert(a0 == OrderActionView::FindByKey { user_id: u, client_order_id: k, locked: false });
    let (db1, e1) = apply(db, price, a0);
    let (f1, a1) = flow_step(f0, e1);
    assert(a1 == OrderActionView::FetchPrice { symbol: ctx.symbol });
    let (db2, e2) = apply(db1, price, a1);
    let (f2, a2) = flow_step(f1, e2);
    assert(a2 == OrderActionView::LockUser { user_id: u });
    let (db3, e3) = apply(db2, price, a2);
    let (f3, a3) = flow_step(f2, e3);
    assert(a3 == OrderActionView::FindByKey { user_id: u, client_order_id: k, locked: true });
    let (db4, e4) = apply(db3, price, a3);
    let (f4, a4) = flow_step(f3, e4);
    assert(a4 is SetCash);
    let (db5, e5) = apply(db4, price, a4);
    let (f5, a5) = flow_step(f4, e5);
    assert(a5 is AddAsset);
    let (db6, e6) = apply(db5, price, a5);
    let (f6, a6) = flow_step(f5, e6);
    assert(a6 is Insert);
    assert(db6.orders == db.orders);
    let (db7, e7) = apply(db6, price, a6);
    let (f7, a7) = flow_step(f6, e7);
    assert(a7 is Commit);
    let (db8, e8) = apply(db7, price, a7);
    let (f8, a8) = flow_step(f7, e8);
    assert(a8 is Respond);
    assert(run(f0, a0, db, db, price, 12) == run(f1, a1, db1, db, price, 11));
    assert(run(f1, a1, db1, db, price, 11) == run(f2, a2, db2, db, price, 10));
    assert(run(f2, a2, db2, db, price, 10) == run(f3, a3, db3, db, price, 9));
    assert(run(f3, a3, db3, db, price, 9) == run(f4, a4, db4, db, price, 8));
    assert(run(f4, a4, db4, db, price, 8) == run(f5, a5, db5, db, price, 7));
    assert(run(f5, a5, db5, db, price, 7) == run(f6, a6, db6, db, price, 6));
    assert(run(f6, a6, db6, db, price, 6) == run(f7, a7, db7, db, price, 5));
    assert(run(f7, a7, db7, db, price, 5) == run(f8, a8, db8, db8, price, 4));
    assert(db8.cash =~= db.cash.insert(u, amount_of(decimal_sub(db.cash[u]@, decimal_mul(price->Ok_0@, ctx.quantity@)->Some_0)->Some_0)));
}


/// Storing an order after the others keeps the first order found under each
/// user and key, and finds the new one where there was none.
pub proof fn lemma_find_after_push(orders: Seq<OrderView>, o: OrderView, user: u128, key: Seq<char>)
    ensures
        find_by_key(orders.push(o), user, key) == (match find_by_key(orders, user, key) {
            Some(x) => Some(x),
            None => if o.user_id == user && o.client_order_id == key {
                Some(o)
            } else {
                None
            },
        }),
    decreases orders.len(),
{
    let p = orders.push(o);
    assert(p[0] == if orders.len() > 0 { orders[0] } else { o });
    if orders.len() > 0 {
        assert(p.drop_first() =~= orders.drop_first().push(o));
        lemma_find_after_push(orders.drop_first(), o, user, key);
    } else {
        assert(p.drop_first() =~= Seq::<OrderView>::empty());
        assert(find_by_key(p.drop_first(), user, key) is None);
    }
}

/// The context a state carries, if it carries one.
pub open spec fn ctx_in(f: OrderFlowView) -> Option<OrderCtxView> {
    match f {
        OrderFlowView::AwaitHeld { ctx } => Some(ctx),
        OrderFlowView::AwaitPrice { ctx, .. } => Some(ctx),
        OrderFlowView::AwaitLock { ctx, .. } => Some(ctx),
        OrderFlowView::AwaitReplay { ctx, .. } => Some(ctx),
        OrderFlowView::AwaitLockedHeld { ctx, .. } => Some(ctx),
        OrderFlowView::AwaitSubAsset { ctx, .. } => Some(ctx),
        OrderFlowView::AwaitSetCash { ctx, .. } => Some(ctx),
        OrderFlowView::AwaitAddAsset { ctx, .. } => Some(ctx),
        _ => None,
    }
}

/// The states reached after the key was found fresh under the lock.
pub open spec fn past_replay(f: OrderFlowView) -> bool {
    ||| f is AwaitLockedHeld
    ||| f is AwaitSubAsset
    ||| f is AwaitSetCash
    ||| f is AwaitAddAsset
    ||| f is AwaitInsert
}

/// An order is executed with a price and no reject reason, or rejected with
/// a reason and no price.
pub open spec fn outcome_consistent(status: OrderStatus, price: Option<Amount>, reason: Option<RejectReason>) -> bool {
    &&& (status == OrderStatus::Executed) == (price is Some)
    &&& (status == OrderStatus::Rejected) == (reason is Some)
}

/// A stored order of user `u` under key `k` with a consistent outcome.
pub open spec fn placed_order(o: OrderView, u: u128, k: Seq<char>) -> bool {
    &&& o.user_id == u
    &&& o.client_order_id == k
    &&& outcome_consistent(o.status, o.price, o.reject_reason)
}

/// What holds at every step of placing an order of user `u` under key `k`,
/// starting from stored orders `orig`.
pub open spec fn placement_inv(
    f: OrderFlowView,
    a: OrderActionView,
    db: Db,
    u: u128,
    k: Seq<char>,
    orig: Seq<OrderView>,
) -> bool {
    &&& f is AwaitFastReplay ==> (f->AwaitFastReplay_user_id == u && f->AwaitFastReplay_client_order_id == k
        && a == OrderActionView::FindByKey { user_id: u, client_order_id: k, locked: false })
    &&& ctx_in(f) matches Some(ctx) ==> ctx.user_id == u && ctx.client_order_id == k
    &&& f is AwaitReplay ==> a == OrderActionView::FindByKey { user_id: u, client_order_id: k, locked: true }
    &&& !(f is AwaitCommit) && !(a matches OrderActionView::Respond { status, .. } && status == 201) ==> db.orders
        == orig
    &&& past_replay(f) ==> find_by_key(db.orders, u, k) is None
    &&& a is Commit ==> f is AwaitCommit
    &&& f is AwaitCommit ==> db.orders == orig.push(f->order) && find_by_key(orig, u, k) is None
    &&& a is Insert ==> f is AwaitInsert && a->record.user_id == u && a->record.client_order_id == k
        && outcome_consistent(a->record.status, a->record.price, a->record.reject_reason)
    &&& f is AwaitCommit ==> find_by_key(db.orders, u, k) == Some(f->order) && a is Commit && placed_order(
        f->order,
        u,
        k,
    )
    &&& a matches OrderActionView::Respond { status, order } ==> (if status == 201 {
        find_by_key(db.orders, u, k) == Some(order) && placed_order(order, u, k)
    } else {
        status == 200 && find_by_key(orig, u, k) == Some(order)
    })
    &&& (f is Finished) == (a is Respond || a is Fail)
}

/// One action and the step after it keep [`placement_inv`].
pub proof fn lemma_placement_step(
    f: OrderFlowView,
    a: OrderActionView,
    db: Db,
    price: Result<Amount, PriceError>,
    u: u128,
    k: Seq<char>,
    orig: Seq<OrderView>,
)
    requires
        placement_inv(f, a, db, u, k, orig),
        !(a is Respond),
        !(a is Fail),
    ensures
        ({
            let (db2, e) = apply(db, price, a);
            let (f2, a2) = flow_step(f, e);
            placement_inv(f2, a2, db2, u, k, orig)
        }),
{
    let (db2, e) = apply(db, price, a);
    let (f2, a2) = flow_step(f, e);
    if a is Insert {
        if find_by_key(db.orders, a->record.user_id, a->record.client_order_id) is None {
            lemma_find_after_push(db.orders, stored(a->record, db.orders.len()), u, k);
        }
    }
}

/// The committed database is the one placement started from, until the
/// transaction commits; it commits only just before answering 201.
pub open spec fn committed_inv(a: OrderActionView, db: Db, saved: Db, db0: Db) -> bool {
    if a matches OrderActionView::Respond { status, .. } && status == 201 {
        saved == db
    } else {
        saved == db0
    }
}

/// A run that keeps [`placement_inv`] answers 201 only with the order it
/// stored under the key, and 200 only with an order stored under the key
/// before; whatever else it ends with (an error, a replay, no answer), the
/// committed database is the one it started from.
pub proof fn lemma_placement_run(
    f: OrderFlowView,
    a: OrderActionView,
    db: Db,
    saved: Db,
    price: Result<Amount, PriceError>,
    fuel: nat,
    u: u128,
    k: Seq<char>,
    db0: Db,
)
    requires
        placement_inv(f, a, db, u, k, db0.orders),
        committed_inv(a, db, saved, db0),
    ensures
        ({
            let (ans, db2) = run(f, a, db, saved, price, fuel);
            &&& ans matches Some(Ok((status, o))) ==> (if status == 201 {
                find_by_key(db2.orders, u, k) == Some(o) && placed_order(o, u, k)
            } else {
                status == 200 && find_by_key(db0.orders, u, k) == Some(o)
            })
            &&& !(ans matches Some(Ok((status, _))) && status == 201) ==> db2 == db0
        }),
    decreases fuel,
{
    if !(a is Respond) && !(a is Fail) && fuel > 0 && !aborts(db, a) {
        lemma_placement_step(f, a, db, price, u, k, db0.orders);
        let (db2, e) = apply(db, price, a);
        let (f2, a2) = flow_step(f, e);
        let saved2 = if a is Commit { db2 } else { saved };
        lemma_placement_run(f2, a2, db2, saved2, price, (fuel - 1) as nat, u, k, db0);
    }
}

/// Retrying is idempotent: once a request was answered with a newly stored
/// order (201), sending it again, whatever the market says, answers with that
/// same order (200) and changes nothing.
pub proof fn law_retry_replays(
    sub: Seq<char>,
    req: CreateOrderRequestView,
    db: Db,
    price: Result<Amount, PriceError>,
    price2: Result<Amount, PriceError>,
)
    requires
        place(sub, req, db, price).0 matches Some(Ok((status, _))) && status == 201,
    ensures
        ({
            let (ans, db2) = place(sub, req, db, price);
            place(sub, req, db2, price2) == (Some(Ok::<(u16, OrderView), HttpExceptionView>((200u16, ans->Some_0->Ok_0.1))), db2)
        }),
{
    let (f, a) = flow_start(sub, req);
    if well_addressed(sub, req) {
        lemma_placement_run(f, a, db, db, price, 12, user_of(sub), key_of(req), db);
        let (ans, db2) = place(sub, req, db, price);
        law_replay(sub, req, db2, price2);
    } else {
        assert(run(f, a, db, db, price, 12).0 matches Some(Err(_)));
    }
}

/// A request whose key is already stored for the user is answered with the
/// stored order (200), without pricing it or touching any balance.
pub proof fn law_replay(sub: Seq<char>, req: CreateOrderRequestView, db: Db, price: Result<Amount, PriceError>)
    requires
        well_addressed(sub, req),
        find_by_key(db.orders, user_of(sub), key_of(req)) is Some,
    ensures
        place(sub, req, db, price) == (
            Some(Ok::<(u16, OrderView), HttpExceptionView>((200u16, find_by_key(db.orders, user_of(sub), key_of(req))->Some_0))),
            db,
        ),
{
    let (f0, a0) = flow_start(sub, req);
    let (db1, e1) = apply(db, price, a0);
    let (f1, a1) = flow_step(f0, e1);
    assert(a1 is Respond);
    assert(run(f0, a0, db, db, price, 12) == run(f1, a1, db1, db, price, 11));
}

/// Every answer of a placement is either an error that left the database
/// (orders, cash and holdings) as it was, a
/// replay (200) of the order already stored under the key, or a newly stored
/// order (201) of the caller under the key, now the order found under it,
/// executed with a price or rejected with a reason.
pub proof fn law_answers_match_key(sub: Seq<char>, req: CreateOrderRequestView, db: Db, price: Result<Amount, PriceError>)
    requires
        well_addressed(sub, req),
    ensures
        ({
            let (ans, db2) = place(sub, req, db, price);
            let u = user_of(sub);
            let k = key_of(req);
            &&& ans matches Some(Ok((status, o))) ==> (if status == 201 {
                find_by_key(db2.orders, u, k) == Some(o) && placed_order(o, u, k)
            } else {
                status == 200 && find_by_key(db.orders, u, k) == Some(o) && db2.orders == db.orders
            })
            &&& ans matches Some(Err(_)) ==> db2 == db
        }),
{
    let (f, a) = flow_start(sub, req);
    lemma_placement_run(f, a, db, db, price, 12, user_of(sub), key_of(req), db);
}


/// A buy the user cannot pay for is stored as rejected for insufficient cash;
/// no balance changes.
pub proof fn law_buy_rejected_without_cash(
    sub: Seq<char>,
    req: CreateOrderRequestView,
    db: Db,
    price: Result<Amount, PriceError>,
)
    requires
        fresh_valid(sub, req, db),
        req.side == OrderSide::Buy,
        price is Ok,
        decimal_mul(price->Ok_0@, ctx_of(sub, req).quantity@) matches Some(t) && repr_ok(t),
        db.cash.contains_key(user_of(sub)),
        value_lt(db.cash[user_of(sub)]@, decimal_mul(price->Ok_0@, ctx_of(sub, req).quantity@)->Some_0),
    ensures
        ({
            let ctx = ctx_of(sub, req);
            let o = stored(
                new_order_spec(ctx, OrderSide::Buy, OrderStatus::Rejected, None, Some(RejectReason::InsufficientCash)),
                db.orders.len(),
            );
            place(sub, req, db, price) == (
                Some(Ok::<(u16, OrderView), HttpExceptionView>((201u16, o))),
                Db { orders: db.orders.push(o), ..db },
            )
        }),
{
    let (f0, a0) = flow_start(sub, req);
    let (db1, e1) = apply(db, price, a0);
    let (f1, a1) = flow_step(f0, e1);
    assert(a1 is FetchPrice);
    let (db2, e2) = apply(db1, price, a1);
    let (f2, a2) = flow_step(f1, e2);
    assert(a2 is LockUser);
    let (db3, e3) = apply(db2, price, a2);
    let (f3, a3) = flow_step(f2, e3);
    assert(a3 is FindByKey);
    let (db4, e4) = apply(db3, price, a3);
    let (f4, a4) = flow_step(f3, e4);
    assert(a4 is Insert);
    let (db5, e5) = apply(db4, price, a4);
    let (f5, a5) = flow_step(f4, e5);
    assert(a5 is Commit);
    let (db6, e6) = apply(db5, price, a5);
    let (f6, a6) = flow_step(f5, e6);
    assert(a6 is Respond);
    assert(run(f0, a0, db, db, price, 12) == run(f1, a1, db1, db, price, 11));
    assert(run(f1, a1, db1, db, price, 11) == run(f2, a2, db2, db, price, 10));
    assert(run(f2, a2, db2, db, price, 10) == run(f3, a3, db3, db, price, 9));
    assert(run(f3, a3, db3, db, price, 9) == run(f4, a4, db4, db, price, 8));
    assert(run(f4, a4, db4, db, price, 8) == run(f5, a5, db5, db, price, 7));
    assert(run(f5, a5, db5, db, price, 7) == run(f6, a6, db6, db6, price, 6));
}

/// A buy that cannot be priced is stored as rejected, for the market service
/// being unavailable or the symbol being unknown; no balance changes.
pub proof fn law_buy_rejected_without_price(
    sub: Seq<char>,
    req: CreateOrderRequestView,
    db: Db,
    price: Result<Amount, PriceError>,
)
    requires
        fresh_valid(sub, req, db),
        req.side == OrderSide::Buy,
        price is Err,
        db.cash.contains_key(user_of(sub)),
    ensures
        ({
            let ctx = ctx_of(sub, req);
            let o = stored(
                new_order_spec(ctx, OrderSide::Buy, OrderStatus::Rejected, None, Some(reason_for(price->Err_0))),
                db.orders.len(),
            );
            place(sub, req, db, price) == (
                Some(Ok::<(u16, OrderView), HttpExceptionView>((201u16, o))),
                Db { orders: db.orders.push(o), ..db },
            )
        }),
{
    let (f0, a0) = flow_start(sub, req);
    let (db1, e1) = apply(db, price, a0);
    let (f1, a1) = flow_step(f0, e1);
    assert(a1 is FetchPrice);
    let (db2, e2) = apply(db1, price, a1);
    let (f2, a2) = flow_step(f1, e2);
    assert(a2 is LockUser);
    let (db3, e3) = apply(db2, price, a2);
    let (f3, a3) = flow_step(f2, e3);
    assert(a3 is FindByKey);
    let (db4, e4) = apply(db3, price, a3);
    let (f4, a4) = flow_step(f3, e4);
    assert(a4 is Insert);
    let (db5, e5) = apply(db4, price, a4);
    let (f5, a5) = flow_step(f4, e5);
    assert(a5 is Commit);
    let (db6, e6) = apply(db5, price, a5);
    let (f6, a6) = flow_step(f5, e6);
    assert(a6 is Respond);
    assert(run(f0, a0, db, db, price, 12) == run(f1, a1, db1, db, price, 11));
    assert(run(f1, a1, db1, db, price, 11) == run(f2, a2, db2, db, price, 10));
    assert(run(f2, a2, db2, db, price, 10) == run(f3, a3, db3, db, price, 9));
    assert(run(f3, a3, db3, db, price, 9) == run(f4, a4, db4, db, price, 8));
    assert(run(f4, a4, db4, db, price, 8) == run(f5, a5, db5, db, price, 7));
    assert(run(f5, a5, db5, db, price, 7) == run(f6, a6, db6, db6, price, 6));
}

/// The held quantity, zero where the user has no balance of the symbol.
pub open spec fn held_or_zero(db: Db, user: u128, symbol: Seq<char>) -> Amount {
    match held(db, user, symbol) {
        Some(h) => h,
        None => Amount { mantissa: 0, scale: 0 },
    }
}

/// A sell of more than the user holds is stored as rejected for insufficient
/// asset before the market is asked; no balance changes.
pub proof fn law_sell_rejected_without_asset(
    sub: Seq<char>,
    req: CreateOrderRequestView,
    db: Db,
    price: Result<Amount, PriceError>,
)
    requires
        fresh_valid(sub, req, db),
        req.side == OrderSide::Sell,
        value_lt(held_or_zero(db, user_of(sub), ctx_of(sub, req).symbol)@, ctx_of(sub, req).quantity@),
        db.cash.contains_key(user_of(sub)),
    ensures
        ({
            let ctx = ctx_of(sub, req);
            let o = stored(
                new_order_spec(ctx, OrderSide::Sell, OrderStatus::Rejected, None, Some(RejectReason::InsufficientAsset)),
                db.orders.len(),
            );
            place(sub, req, db, price) == (
                Some(Ok::<(u16, OrderView), HttpExceptionView>((201u16, o))),
                Db { orders: db.orders.push(o), ..db },
            )
        }),
{
    let (f0, a0) = flow_start(sub, req);
    let (db1, e1) = apply(db, price, a0);
    let (f1, a1) = flow_step(f0, e1);
    assert(a1 is FetchHeld);
    let (db2, e2) = apply(db1, price, a1);
    let (f2, a2) = flow_step(f1, e2);
    assert(a2 is LockUser);
    let (db3, e3) = apply(db2, price, a2);
    let (f3, a3) = flow_step(f2, e3);
    assert(a3 is FindByKey);
    let (db4, e4) = apply(db3, price, a3);
    let (f4, a4) = flow_step(f3, e4);
    assert(a4 is Insert);
    let (db5, e5) = apply(db4, price, a4);
    let (f5, a5) = flow_step(f4, e5);
    assert(a5 is Commit);
    let (db6, e6) = apply(db5, price, a5);
    let (f6, a6) = flow_step(f5, e6);
    assert(a6 is Respond);
    assert(run(f0, a0, db, db, price, 12) == run(f1, a1, db1, db, price, 11));
    assert(run(f1, a1, db1, db, price, 11) == run(f2, a2, db2, db, price, 10));
    assert(run(f2, a2, db2, db, price, 10) == run(f3, a3, db3, db, price, 9));
    assert(run(f3, a3, db3, db, price, 9) == run(f4, a4, db4, db, price, 8));
    assert(run(f4, a4, db4, db, price, 8) == run(f5, a5, db5, db, price, 7));
    assert(run(f5, a5, db5, db, price, 7) == run(f6, a6, db6, db6, price, 6));
}

/// An order whose value (price times quantity) overflows is refused with
/// "value is too large" before any lock is taken; nothing changes.
pub proof fn law_value_too_large(sub: Seq<char>, req: CreateOrderRequestView, db: Db, price: Result<Amount, PriceError>)
    requires
        fresh_valid(sub, req, db),
        req.side == OrderSide::Sell ==> !value_lt(
            held_or_zero(db, user_of(sub), ctx_of(sub, req).symbol)@,
            ctx_of(sub, req).quantity@,
        ),
        price matches Ok(p) && decimal_mul(p@, ctx_of(sub, req).quantity@) is None,
    ensures
        place(sub, req, db, price) == (
            Some(Err::<(u16, OrderView), HttpExceptionView>(
                HttpExceptionView::App(AppErrView::Custom("value is too large"@)),
            )),
            db,
        ),
{
    let (f0, a0) = flow_start(sub, req);
    let (db1, e1) = apply(db, price, a0);
    let (f1, a1) = flow_step(f0, e1);
    if req.side == OrderSide::Buy {
        assert(a1 is FetchPrice);
        let (db2, e2) = apply(db1, price, a1);
        let (f2, a2) = flow_step(f1, e2);
        assert(a2 is Fail);
        assert(run(f0, a0, db, db, price, 12) == run(f1, a1, db1, db, price, 11));
        assert(run(f1, a1, db1, db, price, 11) == run(f2, a2, db2, db, price, 10));
    } else {
        assert(a1 is FetchHeld);
        let (db2, e2) = apply(db1, price, a1);
        let (f2, a2) = flow_step(f1, e2);
        assert(a2 is FetchPrice);
        let (db3, e3) = apply(db2, price, a2);
        let (f3, a3) = flow_step(f2, e3);
        assert(a3 is Fail);
        assert(run(f0, a0, db, db, price, 12) == run(f1, a1, db1, db, price, 11));
        assert(run(f1, a1, db1, db, price, 11) == run(f2, a2, db2, db, price, 10));
        assert(run(f2, a2, db2, db, price, 10) == run(f3, a3, db3, db, price, 9));
    }
}

/// A failed price lookup, for a buy or a sell, locks the user's row to store
/// the order as rejected for the error's own reason.
pub proof fn law_price_failure_locks_to_reject(ctx: OrderCtxView, side: OrderSide, pe: PriceError)
    ensures
        ({
            let reason = if pe == PriceError::Unavailable {
                RejectReason::MarketServiceUnavailable
            } else {
                RejectReason::InvalidSymbol
            };
            flow_step(OrderFlowView::AwaitPrice { ctx, side }, OrderEventView::Priced(Err(pe))) == (
                OrderFlowView::AwaitLock { ctx, side, plan: crate::portfolio::order_flow::Plan::Reject(reason) },
                OrderActionView::LockUser { user_id: ctx.user_id },
            )
        }),
{
}

/// Under the lock, a sell re-reads the holding: one that does not cover the
/// quantity stores the order as rejected for insufficient asset, one that
/// covers it takes the quantity from the holding.
pub proof fn law_locked_recheck(ctx: OrderCtxView, price: Amount, proceeds: Amount, cash: Amount, h: Option<Amount>)
    ensures
        ({
            let held = match h {
                Some(x) => x,
                None => Amount { mantissa: 0, scale: 0 },
            };
            let (f2, a2) = flow_step(OrderFlowView::AwaitLockedHeld { ctx, price, proceeds, cash }, OrderEventView::Held(h));
            &&& value_lt(held@, ctx.quantity@) ==> a2 == (OrderActionView::Insert {
                record: new_order_spec(ctx, OrderSide::Sell, OrderStatus::Rejected, None, Some(RejectReason::InsufficientAsset)),
            })
            &&& !value_lt(held@, ctx.quantity@) ==> a2 == (OrderActionView::SubAsset {
                user_id: ctx.user_id,
                symbol: ctx.symbol,
                quantity: ctx.quantity,
            })
        }),
{
}

/// A failed price lookup is recorded as its own reason: the market service
/// being unavailable as `MarketServiceUnavailable`, an unknown symbol as
/// `InvalidSymbol`.
pub proof fn law_reject_reasons()
    ensures
        reason_for(PriceError::Unavailable) == RejectReason::MarketServiceUnavailable,
        reason_for(PriceError::InvalidSymbol) == RejectReason::InvalidSymbol,
{
}

/// A sell the user holds enough for but that cannot be priced is stored as
/// rejected for the price error's own reason (the market service being
/// unavailable, or the symbol unknown); no balance changes.
pub proof fn law_sell_rejected_without_price(
    sub: Seq<char>,
    req: CreateOrderRequestView,
    db: Db,
    price: Result<Amount, PriceError>,
)
    requires
        fresh_valid(sub, req, db),
        req.side == OrderSide::Sell,
        !value_lt(held_or_zero(db, user_of(sub), ctx_of(sub, req).symbol)@, ctx_of(sub, req).quantity@),
        price is Err,
        db.cash.contains_key(user_of(sub)),
    ensures
        ({
            let ctx = ctx_of(sub, req);
            let reason = if price->Err_0 == PriceError::Unavailable {
                RejectReason::MarketServiceUnavailable
            } else {
                RejectReason::InvalidSymbol
            };
            let o = stored(
                new_order_spec(ctx, OrderSide::Sell, OrderStatus::Rejected, None, Some(reason)),
                db.orders.len(),
            );
            place(sub, req, db, price) == (
                Some(Ok::<(u16, OrderView), HttpExceptionView>((201u16, o))),
                Db { orders: db.orders.push(o), ..db },
            )
        }),
{
    let (f0, a0) = flow_start(sub, req);
    let (db1, e1) = apply(db, price, a0);
    let (f1, a1) = flow_step(f0, e1);
    assert(a1 is FetchHeld);
    let (db2, e2) = apply(db1, price, a1);
    let (f2, a2) = flow_step(f1, e2);
    assert(a2 is FetchPrice);
    let (db3, e3) = apply(db2, price, a2);
    let (f3, a3) = flow_step(f2, e3);
    assert(a3 is LockUser);
    let (db4, e4) = apply(db3, price, a3);
    let (f4, a4) = flow_step(f3, e4);
    assert(a4 is FindByKey);
    let (db5, e5) = apply(db4, price, a4);
    let (f5, a5) = flow_step(f4, e5);
    assert(a5 is Insert);
    let (db6, e6) = apply(db5, price, a5);
    let (f6, a6) = flow_step(f5, e6);
    assert(a6 is Commit);
    let (db7, e7) = apply(db6, price, a6);
    let (f7, a7) = flow_step(f6, e7);
    assert(a7 is Respond);
    assert(run(f0, a0, db, db, price, 12) == run(f1, a1, db1, db, price, 11));
    assert(run(f1, a1, db1, db, price, 11) == run(f2, a2, db2, db, price, 10));
    assert(run(f2, a2, db2, db, price, 10) == run(f3, a3, db3, db, price, 9));
    assert(run(f3, a3, db3, db, price, 9) == run(f4, a4, db4, db, price, 8));
    assert(run(f4, a4, db4, db, price, 8) == run(f5, a5, db5, db, price, 7));
    assert(run(f5, a5, db5, db, price, 7) == run(f6, a6, db6, db, price, 6));
    assert(run(f6, a6, db6, db, price, 6) == run(f7, a7, db7, db7, price, 5));
}

/// A sell the user holds enough for: the quantity is debited, the proceeds are
/// credited, and the order is stored as executed at the market price.
pub proof fn law_sell_executes(sub: Seq<char>, req: CreateOrderRequestView, db: Db, price: Result<Amount, PriceError>)
    requires
        fresh_valid(sub, req, db),
        req.side == OrderSide::Sell,
        held(db, user_of(sub), ctx_of(sub, req).symbol) is Some,
        !value_lt(held_or_zero(db, user_of(sub), ctx_of(sub, req).symbol)@, ctx_of(sub, req).quantity@),
        decimal_sub(held_or_zero(db, user_of(sub), ctx_of(sub, req).symbol)@, ctx_of(sub, req).quantity@) matches Some(
            r,
        ) && repr_ok(r),
        price is Ok,
        decimal_mul(price->Ok_0@, ctx_of(sub, req).quantity@) matches Some(t) && repr_ok(t),
        db.cash.contains_key(user_of(sub)),
        decimal_add(db.cash[user_of(sub)]@, decimal_mul(price->Ok_0@, ctx_of(sub, req).quantity@)->Some_0) matches Some(
            c,
        ) && repr_ok(c),
    ensures
        ({
            let u = user_of(sub);
            let ctx = ctx_of(sub, req);
            let p = price->Ok_0;
            let proceeds = decimal_mul(p@, ctx.quantity@)->Some_0;
            let new_cash = amount_of(decimal_add(db.cash[u]@, proceeds)->Some_0);
            let new_held = amount_of(decimal_sub(held_or_zero(db, u, ctx.symbol)@, ctx.quantity@)->Some_0);
            let o = stored(new_order_spec(ctx, OrderSide::Sell, OrderStatus::Executed, Some(p), None), db.orders.len());
            place(sub, req, db, price) == (
                Some(Ok::<(u16, OrderView), HttpExceptionView>((201u16, o))),
                Db {
                    cash: db.cash.insert(u, new_cash),
                    holdings: db.holdings.insert((u, ctx.symbol), new_held),
                    orders: db.orders.push(o),
                },
            )
        }),
{
    let (f0, a0) = flow_start(sub, req);
    let (db1, e1) = apply(db, price, a0);
    let (f1, a1) = flow_step(f0, e1);
    assert(a1 is FetchHeld);
    let (db2, e2) = apply(db1, price, a1);
    let (f2, a2) = flow_step(f1, e2);
    assert(a2 is FetchPrice);
    let (db3, e3) = apply(db2, price, a2);
    let (f3, a3) = flow_step(f2, e3);
    assert(a3 is LockUser);
    let (db4, e4) = apply(db3, price, a3);
    let (f4, a4) = flow_step(f3, e4);
    assert(a4 is FindByKey);
    let (db5, e5) = apply(db4, price, a4);
    let (f5, a5) = flow_step(f4, e5);
    assert(a5 is FetchHeld);
    let (db6, e6) = apply(db5, price, a5);
    let (f6, a6) = flow_step(f5, e6);
    assert(a6 is SubAsset);
    let (db7, e7) = apply(db6, price, a6);
    let (f7, a7) = flow_step(f6, e7);
    assert(a7 is SetCash);
    let (db8, e8) = apply(db7, price, a7);
    let (f8, a8) = flow_step(f7, e8);
    assert(a8 is Insert);
    let (db9, e9) = apply(db8, price, a8);
    let (f9, a9) = flow_step(f8, e9);
    assert(a9 is Commit);
    let (db10, e10) = apply(db9, price, a9);
    let (f10, a10) = flow_step(f9, e10);
    assert(a10 is Respond);
    assert(run(f0, a0, db, db, price, 12) == run(f1, a1, db1, db, price, 11));
    assert(run(f1, a1, db1, db, price, 11) == run(f2, a2, db2, db, price, 10));
    assert(run(f2, a2, db2, db, price, 10) == run(f3, a3, db3, db, price, 9));
    assert(run(f3, a3, db3, db, price, 9) == run(f4, a4, db4, db, price, 8));
    assert(run(f4, a4, db4, db, price, 8) == run(f5, a5, db5, db, price, 7));
    assert(run(f5, a5, db5, db, price, 7) == run(f6, a6, db6, db, price, 6));
    assert(run(f6, a6, db6, db, price, 6) == run(f7, a7, db7, db, price, 5));
    assert(run(f7, a7, db7, db, price, 5) == run(f8, a8, db8, db, price, 4));
    assert(run(f8, a8, db8, db, price, 4) == run(f9, a9, db9, db, price, 3));
    assert(run(f9, a9, db9, db, price, 3) == run(f10, a10, db10, db10, price, 2));
}

/// A request whose key is fresh but whose symbol or quantity is invalid is
/// refused with the validation error; nothing is stored and no balance changes.
pub proof fn law_invalid_payload_changes_nothing(
    sub: Seq<char>,
    req: CreateOrderRequestView,
    db: Db,
    price: Result<Amount, PriceError>,
)
    requires
        well_addressed(sub, req),
        find_by_key(db.orders, user_of(sub), key_of(req)) is None,
        payload_check(user_of(sub), key_of(req), req) is Err,
    ensures
        place(sub, req, db, price) == (
            Some(Err::<(u16, OrderView), HttpExceptionView>(payload_check(user_of(sub), key_of(req), req)->Err_0)),
            db,
        ),
{
    let (f0, a0) = flow_start(sub, req);
    let (db1, e1) = apply(db, price, a0);
    let (f1, a1) = flow_step(f0, e1);
    assert(a1 is Fail);
    assert(run(f0, a0, db, db, price, 12) == run(f1, a1, db1, db, price, 11));
}

/// A request from a token whose subject is not a user id, or with a missing
/// or overlong key, is refused before the database is read.
pub proof fn law_badly_addressed_changes_nothing(
    sub: Seq<char>,
    req: CreateOrderRequestView,
    db: Db,
    price: Result<Amount, PriceError>,
)
    requires
        !well_addressed(sub, req),
    ensures
        place(sub, req, db, price).1 == db,
        place(sub, req, db, price).0 == Some(Err::<(u16, OrderView), HttpExceptionView>(
            if uuid_parse(sub) is None {
                HttpExceptionView::Internal("invalid user id in token"@)
            } else {
                key_check(req.client_order_id)->Err_0
            },
        )),
{
}

/// A buy for a user with no account row is refused as an internal error once
/// the row lock finds nothing; nothing is stored.
pub proof fn law_unknown_user_buy_changes_nothing(
    sub: Seq<char>,
    req: CreateOrderRequestView,
    db: Db,
    price: Result<Amount, PriceError>,
)
    requires
        fresh_valid(sub, req, db),
        req.side == OrderSide::Buy,
        !db.cash.contains_key(user_of(sub)),
        price matches Ok(p) ==> decimal_mul(p@, ctx_of(sub, req).quantity@) is Some,
    ensures
        place(sub, req, db, price) == (
            Some(Err::<(u16, OrderView), HttpExceptionView>(HttpExceptionView::Internal("user not found"@))),
            db,
        ),
{
    let (f0, a0) = flow_start(sub, req);
    let (db1, e1) = apply(db, price, a0);
    let (f1, a1) = flow_step(f0, e1);
    assert(a1 is FetchPrice);
    let (db2, e2) = apply(db1, price, a1);
    let (f2, a2) = flow_step(f1, e2);
    assert(a2 is LockUser);
    let (db3, e3) = apply(db2, price, a2);
    let (f3, a3) = flow_step(f2, e3);
    assert(a3 is Fail);
    assert(run(f0, a0, db, db, price, 12) == run(f1, a1, db1, db, price, 11));
    assert(run(f1, a1, db1, db, price, 11) == run(f2, a2, db2, db, price, 10));
    assert(run(f2, a2, db2, db, price, 10) == run(f3, a3, db3, db, price, 9));
}


/// The asset balances after a planned write (unchanged where the plan
/// overflowed, which aborts the request).
pub open spec fn holdings_after(
    holdings: Map<(u128, Seq<char>), Amount>,
    user: u128,
    symbol: Seq<char>,
    plan: Option<BalanceWrite>,
) -> Map<(u128, Seq<char>), Amount> {
    match plan {
        Some(BalanceWrite::Update(q)) => holdings.insert((user, symbol), q),
        Some(BalanceWrite::Insert(q)) => holdings.insert((user, symbol), q),
        _ => holdings,
    }
}

/// What an executed order pays or receives: its price times its quantity.
pub open spec fn order_value(o: OrderView) -> Amount {
    amount_of(decimal_mul(o.price->Some_0@, o.quantity@)->Some_0)
}

/// The cash balances after an order placed against `db0`: an executed buy
/// pays its value, an executed sell receives it, a rejected order changes nothing.
pub open spec fn cash_effect(db0: Db, o: OrderView) -> Map<u128, Amount> {
    if o.status == OrderStatus::Rejected {
        db0.cash
    } else {
        match o.side {
            OrderSide::Buy => db0.cash.insert(
                o.user_id,
                amount_of(decimal_sub(db0.cash[o.user_id]@, order_value(o)@)->Some_0),
            ),
            OrderSide::Sell => db0.cash.insert(
                o.user_id,
                amount_of(decimal_add(db0.cash[o.user_id]@, order_value(o)@)->Some_0),
            ),
        }
    }
}

/// The asset balances after an order placed against `db0`: an executed buy
/// adds its quantity, an executed sell subtracts it, a rejected order changes nothing.
pub open spec fn holdings_effect(db0: Db, o: OrderView) -> Map<(u128, Seq<char>), Amount> {
    if o.status == OrderStatus::Rejected {
        db0.holdings
    } else {
        match o.side {
            OrderSide::Buy => holdings_after(
                db0.holdings,
                o.user_id,
                o.symbol,
                add_plan(held(db0, o.user_id, o.symbol), o.quantity),
            ),
            OrderSide::Sell => holdings_after(
                db0.holdings,
                o.user_id,
                o.symbol,
                sub_plan(held(db0, o.user_id, o.symbol), o.quantity),
            ),
        }
    }
}

/// An executed order was covered when it executed: a buy by the user's cash,
/// a sell by the user's holding of the symbol.
pub open spec fn covered(db0: Db, o: OrderView) -> bool {
    o.status == OrderStatus::Executed ==> match o.side {
        OrderSide::Buy => db0.cash.contains_key(o.user_id) && !value_lt(db0.cash[o.user_id]@, order_value(o)@),
        OrderSide::Sell => db0.cash.contains_key(o.user_id) && !value_lt(
            held_or_zero(db0, o.user_id, o.symbol)@,
            o.quantity@,
        ),
    }
}

/// The balances of `db` are those of `db0`.
pub open spec fn balances_unchanged(db: Db, db0: Db) -> bool {
    db.cash == db0.cash && db.holdings == db0.holdings
}

/// The plan carries the market price and the order value it was made with.
pub open spec fn plan_ok(plan: crate::portfolio::order_flow::Plan, ctx: OrderCtxView, side: OrderSide) -> bool {
    match plan {
        crate::portfolio::order_flow::Plan::Reject(_) => true,
        crate::portfolio::order_flow::Plan::Buy { price, total } => side == OrderSide::Buy && decimal_mul(
            price@,
            ctx.quantity@,
        ) is Some && total == amount_of(decimal_mul(price@, ctx.quantity@)->Some_0),
        crate::portfolio::order_flow::Plan::Sell { price, proceeds } => side == OrderSide::Sell && decimal_mul(
            price@,
            ctx.quantity@,
        ) is Some && proceeds == amount_of(decimal_mul(price@, ctx.quantity@)->Some_0),
    }
}

/// The order an executed context stores at `price`.
pub open spec fn executed(ctx: OrderCtxView, side: OrderSide, price: Amount) -> OrderView {
    stored(new_order_spec(ctx, side, OrderStatus::Executed, Some(price), None), 0)
}

/// The balance effects of the order being placed, at every step, from the
/// balances `db0` had when placement started.
pub open spec fn effect_inv(f: OrderFlowView, a: OrderActionView, db: Db, u: u128, db0: Db) -> bool {
    &&& ctx_in(f) matches Some(ctx) ==> ctx.user_id == u
    &&& f is AwaitFastReplay ==> f->AwaitFastReplay_user_id == u
    &&& (f is AwaitFastReplay || f is AwaitHeld || f is AwaitPrice || f is AwaitLock || f is AwaitReplay
        || f is AwaitLockedHeld || f is AwaitSubAsset) ==> balances_unchanged(db, db0)
    &&& f matches OrderFlowView::AwaitLock { ctx, side, plan } ==> plan_ok(plan, ctx, side)
        && a == OrderActionView::LockUser { user_id: u }
    &&& f matches OrderFlowView::AwaitReplay { ctx, side, plan, cash } ==> plan_ok(plan, ctx, side)
        && db0.cash.contains_key(u) && cash == db0.cash[u] && a is FindByKey
    &&& f matches OrderFlowView::AwaitLockedHeld { ctx, price, proceeds, cash } ==> plan_ok(
        crate::portfolio::order_flow::Plan::Sell { price, proceeds },
        ctx,
        OrderSide::Sell,
    ) && db0.cash.contains_key(u) && cash == db0.cash[u] && a == OrderActionView::FetchHeld {
        user_id: u,
        symbol: ctx.symbol,
        locked: true,
    }
    &&& f matches OrderFlowView::AwaitSubAsset { ctx, price, proceeds, cash } ==> plan_ok(
        crate::portfolio::order_flow::Plan::Sell { price, proceeds },
        ctx,
        OrderSide::Sell,
    ) && db0.cash.contains_key(u) && cash == db0.cash[u] && covered(db0, executed(ctx, OrderSide::Sell, price))
        && a == OrderActionView::SubAsset { user_id: u, symbol: ctx.symbol, quantity: ctx.quantity }
    &&& f matches OrderFlowView::AwaitSetCash { ctx, side, price } ==> {
        let o = executed(ctx, side, price);
        &&& decimal_mul(price@, ctx.quantity@) is Some
        &&& covered(db0, o)
        &&& a == OrderActionView::SetCash { user_id: u, cash: cash_effect(db0, o)[u] }
        &&& db.cash == db0.cash
        &&& db.holdings == (if side == OrderSide::Buy {
            db0.holdings
        } else {
            holdings_effect(db0, o)
        })
    }
    &&& f matches OrderFlowView::AwaitAddAsset { ctx, price } ==> {
        let o = executed(ctx, OrderSide::Buy, price);
        &&& decimal_mul(price@, ctx.quantity@) is Some
        &&& covered(db0, o)
        &&& a == OrderActionView::AddAsset { user_id: u, symbol: ctx.symbol, quantity: ctx.quantity }
        &&& db.cash == cash_effect(db0, o)
        &&& db.holdings == db0.holdings
    }
    &&& a matches OrderActionView::Insert { record } ==> {
        let o = stored(record, 0);
        &&& f is AwaitInsert
        &&& record.user_id == u
        &&& (record.status == OrderStatus::Executed ==> record.price is Some && decimal_mul(
            record.price->Some_0@,
            record.quantity@,
        ) is Some)
        &&& covered(db0, o)
        &&& db.cash == cash_effect(db0, o)
        &&& db.holdings == holdings_effect(db0, o)
    }
    &&& f matches OrderFlowView::AwaitCommit { order } ==> a is Commit && order.user_id == u && covered(db0, order)
        && db.cash == cash_effect(db0, order) && db.holdings == holdings_effect(db0, order)
    &&& a matches OrderActionView::Respond { status, order } ==> (if status == 201 {
        order.user_id == u && covered(db0, order) && db.cash == cash_effect(db0, order) && db.holdings
            == holdings_effect(db0, order)
    } else {
        balances_unchanged(db, db0)
    })
    &&& (f is Finished) == (a is Respond || a is Fail)
    &&& f is AwaitInsert ==> a is Insert
}

/// One action and the step after it keep [`effect_inv`].
pub proof fn lemma_effect_step(
    f: OrderFlowView,
    a: OrderActionView,
    db: Db,
    price: Result<Amount, PriceError>,
    u: u128,
    db0: Db,
)
    requires
        effect_inv(f, a, db, u, db0),
        !(a is Respond),
        !(a is Fail),
    ensures
        ({
            let (db2, e) = apply(db, price, a);
            let (f2, a2) = flow_step(f, e);
            effect_inv(f2, a2, db2, u, db0)
        }),
{
    let (db2, e) = apply(db, price, a);
    let (f2, a2) = flow_step(f, e);
    match f {
        OrderFlowView::AwaitReplay { ctx, side, plan, cash } => {
            assert(effect_inv(f2, a2, db2, u, db0));
        },
        OrderFlowView::AwaitLockedHeld { ctx, price: p, proceeds, cash } => {
            assert(effect_inv(f2, a2, db2, u, db0));
        },
        OrderFlowView::AwaitSubAsset { ctx, price: p, proceeds, cash } => {
            assert(effect_inv(f2, a2, db2, u, db0));
        },
        OrderFlowView::AwaitSetCash { ctx, side, price: p } => {
            assert(effect_inv(f2, a2, db2, u, db0));
        },
        OrderFlowView::AwaitAddAsset { ctx, price: p } => {
            assert(effect_inv(f2, a2, db2, u, db0));
        },
        OrderFlowView::AwaitInsert => {
            assert(effect_inv(f2, a2, db2, u, db0));
        },
        OrderFlowView::AwaitFastReplay { .. } => {
            assert(effect_inv(f2, a2, db2, u, db0));
        },
        OrderFlowView::AwaitHeld { .. } => {
            assert(effect_inv(f2, a2, db2, u, db0));
        },
        OrderFlowView::AwaitPrice { .. } => {
            assert(effect_inv(f2, a2, db2, u, db0));
        },
        OrderFlowView::AwaitLock { .. } => {
            assert(effect_inv(f2, a2, db2, u, db0));
        },
        OrderFlowView::AwaitCommit { .. } => {
            assert(effect_inv(f2, a2, db2, u, db0));
        },
        OrderFlowView::Finished => {},
    }
}


/// A run that keeps [`effect_inv`] ends with the balances its answer accounts for.
pub proof fn lemma_effect_run(
    f: OrderFlowView,
    a: OrderActionView,
    db: Db,
    saved: Db,
    price: Result<Amount, PriceError>,
    fuel: nat,
    u: u128,
    db0: Db,
)
    requires
        effect_inv(f, a, db, u, db0),
        committed_inv(a, db, saved, db0),
        a is Commit ==> f is AwaitCommit,
    ensures
        ({
            let (ans, db2) = run(f, a, db, saved, price, fuel);
            ans matches Some(Ok((status, o))) ==> (if status == 201 {
                covered(db0, o) && db2.cash == cash_effect(db0, o) && db2.holdings == holdings_effect(db0, o)
            } else {
                balances_unchanged(db2, db0)
            })
        }),
    decreases fuel,
{
    if !(a is Respond) && !(a is Fail) && fuel > 0 && !aborts(db, a) {
        lemma_effect_step(f, a, db, price, u, db0);
        let (db2, e) = apply(db, price, a);
        let (f2, a2) = flow_step(f, e);
        let saved2 = if a is Commit { db2 } else { saved };
        lemma_effect_run(f2, a2, db2, saved2, price, (fuel - 1) as nat, u, db0);
    }
}

/// Placing an order changes the balances exactly by what its answer says: a
/// replayed order (200) changes nothing; a newly stored order (201) that was
/// rejected changes nothing; an executed buy was covered by the user's cash,
/// pays the order's value (price times quantity) out of it and adds the
/// quantity to the user's holding of the symbol; an executed sell was covered
/// by the holding, subtracts the quantity from it and adds the value to the cash.
pub proof fn law_balances_follow_the_answer(
    sub: Seq<char>,
    req: CreateOrderRequestView,
    db: Db,
    price: Result<Amount, PriceError>,
)
    ensures
        ({
            let (ans, db2) = place(sub, req, db, price);
            ans matches Some(Ok((status, o))) ==> (if status == 201 {
                covered(db, o) && db2.cash == cash_effect(db, o) && db2.holdings == holdings_effect(db, o)
            } else {
                balances_unchanged(db2, db)
            })
        }),
{
    let (f, a) = flow_start(sub, req);
    if well_addressed(sub, req) {
        lemma_effect_run(f, a, db, db, price, 12, user_of(sub), db);
    }
}

/// A request that is not answered with a newly stored order (201) leaves the
/// database as it was: one refused with an error or replayed (200) drops its
/// transaction, and so does one never answered because an asset balance
/// update overflowed and panicked. No write of a failed request persists.
pub proof fn law_no_201_changes_nothing(
    sub: Seq<char>,
    req: CreateOrderRequestView,
    db: Db,
    price: Result<Amount, PriceError>,
)
    ensures
        ({
            let (ans, db2) = place(sub, req, db, price);
            !(ans matches Some(Ok((status, _))) && status == 201) ==> db2 == db
        }),
{
    let (f, a) = flow_start(sub, req);
    if well_addressed(sub, req) {
        lemma_placement_run(f, a, db, db, price, 12, user_of(sub), key_of(req), db);
    }
}

} // verus!
