//! Several requests of one user placing orders at the same time.
//!
//! Each request runs [`flow_start`] and [`flow_step`] as in
//! [`crate::portfolio::order_laws`], and the requests' actions interleave in
//! any order (a schedule). Reads outside a transaction see what is committed.
//! `LockUser` begins a transaction and takes the user's row lock; it waits
//! while another request of the user holds the lock. The holder's actions see
//! its own transaction, which `Commit` makes durable; the lock is released when
//! the holder answers (a dropped transaction is rolled back), or when it panics.

use vstd::prelude::*;

use crate::decimal::Amount;
use crate::portfolio::market_client::PriceError;
use crate::portfolio::order_flow::{flow_start, flow_step, key_check, OrderActionView, OrderFlowView};
use crate::portfolio::order_laws::{
    aborts, apply, cash_effect, covered, effect_inv, find_by_key, holdings_effect, lemma_effect_step,
    lemma_find_after_push, lemma_placement_step, placed_order, placement_inv, plan_ok, Answer, Db,
};
use crate::portfolio::orders::CreateOrderRequestView;
use crate::ids::uuid_parse;

verus! {

/// Requests of one user in progress at the same time.
pub struct Conc {
    /// Each request's state and pending action.
    pub flows: Seq<(OrderFlowView, OrderActionView)>,
    /// Each request's outcome: `None` while it runs, `Some(None)` if it
    /// panicked without answering, `Some(Some(answer))` once answered.
    pub answers: Seq<Option<Option<Answer>>>,
    /// What is committed.
    pub db: Db,
    /// The request holding the user's row lock, if any.
    pub lock: Option<nat>,
    /// The lock holder's transaction: the committed data and its own writes.
    pub txn: Db,
    /// The request whose transaction committed, if one did.
    pub committed_by: Option<nat>,
}

/// The requests `reqs` of the holder of token subject `sub`, none started yet.
pub open spec fn conc_start(sub: Seq<char>, reqs: Seq<CreateOrderRequestView>, db: Db) -> Conc {
    Conc {
        flows: Seq::new(reqs.len(), |i: int| flow_start(sub, reqs[i])),
        answers: Seq::new(reqs.len(), |i: int| None),
        db,
        lock: None,
        txn: db,
        committed_by: None,
    }
}

/// Request `i` does its pending piece of work; `prices[i]` is what the market
/// answers it.
pub open spec fn conc_move(s: Conc, i: nat, prices: Seq<Result<Amount, PriceError>>) -> Conc {
    if i >= s.flows.len() || s.answers[i as int] is Some {
        s
    } else {
        let (f, a) = s.flows[i as int];
        let released = if s.lock == Some(i) { None } else { s.lock };
        match a {
            OrderActionView::Respond { status, order } =>
                Conc { answers: s.answers.update(i as int, Some(Some(Ok((status, order))))), lock: released, ..s },
            OrderActionView::Fail { error } =>
                Conc { answers: s.answers.update(i as int, Some(Some(Err(error)))), lock: released, ..s },
            OrderActionView::LockUser { .. } => if s.lock is Some {
                s
            } else {
                let (t2, e) = apply(s.db, prices[i as int], a);
                Conc { flows: s.flows.update(i as int, flow_step(f, e)), lock: Some(i), txn: t2, ..s }
            },
            _ => if s.lock == Some(i) {
                if aborts(s.txn, a) {
                    Conc { answers: s.answers.update(i as int, Some(None)), lock: None, ..s }
                } else {
                    let (t2, e) = apply(s.txn, prices[i as int], a);
                    Conc {
                        flows: s.flows.update(i as int, flow_step(f, e)),
                        txn: t2,
                        db: if a is Commit { t2 } else { s.db },
                        committed_by: if a is Commit { Some(i) } else { s.committed_by },
                        ..s
                    }
                }
            } else {
                let (d2, e) = apply(s.db, prices[i as int], a);
                Conc { flows: s.flows.update(i as int, flow_step(f, e)), ..s }
            },
        }
    }
}

/// The requests do their work in the order of `schedule`.
pub open spec fn conc_run(s: Conc, schedule: Seq<nat>, prices: Seq<Result<Amount, PriceError>>) -> Conc
    decreases schedule.len(),
{
    if schedule.len() == 0 {
        s
    } else {
        conc_run(conc_move(s, schedule[0], prices), schedule.drop_first(), prices)
    }
}

/// A request of user `u` with key `k` that holds no lock and has not answered
/// yet: looking the key up, reading the holding, asking for the price, or
/// waiting for the lock.
pub open spec fn idle_flow_ok(f: OrderFlowView, a: OrderActionView, u: u128, k: Seq<char>) -> bool {
    match f {
        OrderFlowView::AwaitFastReplay { user_id, client_order_id, .. } => user_id == u && client_order_id == k
            && a == OrderActionView::FindByKey { user_id: u, client_order_id: k, locked: false },
        OrderFlowView::AwaitHeld { ctx } => ctx.user_id == u && ctx.client_order_id == k
            && a == OrderActionView::FetchHeld { user_id: u, symbol: ctx.symbol, locked: false },
        OrderFlowView::AwaitPrice { ctx, .. } => ctx.user_id == u && ctx.client_order_id == k
            && a == OrderActionView::FetchPrice { symbol: ctx.symbol },
        OrderFlowView::AwaitLock { ctx, side, plan } => ctx.user_id == u && ctx.client_order_id == k && plan_ok(
            plan,
            ctx,
            side,
        ) && a == OrderActionView::LockUser { user_id: u },
        _ => false,
    }
}

/// The states of a request after it took the lock.
pub open spec fn postlock(f: OrderFlowView, a: OrderActionView) -> bool {
    ||| f is AwaitReplay
    ||| f is AwaitLockedHeld
    ||| f is AwaitSubAsset
    ||| f is AwaitSetCash
    ||| f is AwaitAddAsset
    ||| f is AwaitInsert
    ||| f is AwaitCommit
    ||| f is Finished && (a is Respond || a is Fail)
}

/// The pending action answers 201.
pub open spec fn answers_201(a: OrderActionView) -> bool {
    a matches OrderActionView::Respond { status, .. } && status == 201
}

/// The lock holder, before it committed: its transaction is the committed
/// data plus its own writes, as [`effect_inv`] and [`placement_inv`] describe.
pub open spec fn holder_ok(f: OrderFlowView, a: OrderActionView, txn: Db, base: Db, u: u128, k: Seq<char>) -> bool {
    &&& postlock(f, a)
    &&& effect_inv(f, a, txn, u, base)
    &&& placement_inv(f, a, txn, u, k, base.orders)
    &&& !answers_201(a)
}

/// The committed data holds exactly one new order, of user `u` under key `k`,
/// and the balances it accounts for.
pub open spec fn committed_ok(db: Db, db0: Db, u: u128, k: Seq<char>) -> bool {
    let o = db.orders.last();
    &&& db.orders == db0.orders.push(o)
    &&& placed_order(o, u, k)
    &&& covered(db0, o)
    &&& db.cash == cash_effect(db0, o)
    &&& db.holdings == holdings_effect(db0, o)
    &&& find_by_key(db.orders, u, k) == Some(o)
}

/// What holds of request `j`.
pub open spec fn flow_ok(s: Conc, j: int, u: u128, k: Seq<char>) -> bool {
    let (f, a) = s.flows[j];
    match s.answers[j] {
        Some(Some(Ok((status, o)))) => s.lock != Some(j as nat) && s.committed_by is Some && find_by_key(
            s.db.orders,
            u,
            k,
        ) == Some(o) && (status == 200 || (status == 201 && s.committed_by == Some(j as nat))),
        Some(_) => s.lock != Some(j as nat),
        None => if s.lock == Some(j as nat) {
            if s.committed_by == Some(j as nat) {
                a == OrderActionView::Respond { status: 201, order: s.db.orders.last() }
            } else {
                holder_ok(f, a, s.txn, s.db, u, k)
            }
        } else {
            ||| idle_flow_ok(f, a, u, k)
            ||| a matches OrderActionView::Respond { status, order } && status == 200 && find_by_key(s.db.orders, u, k)
                == Some(order)
            ||| a is Fail
        },
    }
}

/// What holds at every point of a schedule of `n` requests of user `u` under
/// key `k`, started against `db0`.
pub open spec fn conc_inv(s: Conc, n: nat, u: u128, k: Seq<char>, db0: Db) -> bool {
    &&& s.flows.len() == n
    &&& s.answers.len() == n
    &&& s.lock matches Some(h) ==> h < n
    &&& find_by_key(db0.orders, u, k) is None
    &&& s.committed_by is None ==> s.db == db0
    &&& s.committed_by matches Some(j) ==> j < n && committed_ok(s.db, db0, u, k) && (s.answers[j as int] == Some(
        Some(Ok::<(u16, crate::portfolio::orders::OrderView), crate::portfolio::exception::HttpExceptionView>((201u16, s.db.orders.last()))),
    ) || (s.lock == Some(j) && s.answers[j as int] is None))
    &&& forall|j: int| 0 <= j < n ==> #[trigger] flow_ok(s, j, u, k)
}

/// A request waiting for a read or the lock meets [`effect_inv`] and
/// [`placement_inv`] against whatever is committed.
pub proof fn lemma_idle_invs(f: OrderFlowView, a: OrderActionView, u: u128, k: Seq<char>, db: Db)
    requires
        idle_flow_ok(f, a, u, k),
    ensures
        effect_inv(f, a, db, u, db),
        placement_inv(f, a, db, u, k, db.orders),
{
}

/// A read outside the lock leaves the committed data as it is, and the
/// request goes on reading or waiting for the lock, replays the order found
/// under the key (200), or fails.
pub proof fn lemma_idle_step(
    f: OrderFlowView,
    a: OrderActionView,
    u: u128,
    k: Seq<char>,
    db: Db,
    price: Result<Amount, PriceError>,
)
    requires
        idle_flow_ok(f, a, u, k),
        !(a is LockUser),
    ensures
        ({
            let (d2, e) = apply(db, price, a);
            let (f2, a2) = flow_step(f, e);
            &&& d2 == db
            &&& idle_flow_ok(f2, a2, u, k) || (a2 matches OrderActionView::Respond { status, order } && status == 200
                && find_by_key(db.orders, u, k) == Some(order)) || a2 is Fail
        }),
{
    lemma_idle_invs(f, a, u, k, db);
    lemma_placement_step(f, a, db, price, u, k, db.orders);
    lemma_effect_step(f, a, db, price, u, db);
}

/// Taking the lock starts the holder's transaction from the committed data.
pub proof fn lemma_lock_step(
    f: OrderFlowView,
    a: OrderActionView,
    u: u128,
    k: Seq<char>,
    db: Db,
    price: Result<Amount, PriceError>,
)
    requires
        idle_flow_ok(f, a, u, k),
        a is LockUser,
    ensures
        ({
            let (t2, e) = apply(db, price, a);
            let (f2, a2) = flow_step(f, e);
            t2 == db && holder_ok(f2, a2, t2, db, u, k)
        }),
{
    lemma_idle_invs(f, a, u, k, db);
    lemma_placement_step(f, a, db, price, u, k, db.orders);
    lemma_effect_step(f, a, db, price, u, db);
}

/// One action of the lock holder: before `Commit` it stays a holder; its
/// `Commit` stores exactly its order, with the balances the order accounts for.
pub proof fn lemma_holder_step(
    f: OrderFlowView,
    a: OrderActionView,
    u: u128,
    k: Seq<char>,
    txn: Db,
    base: Db,
    price: Result<Amount, PriceError>,
)
    requires
        holder_ok(f, a, txn, base, u, k),
        !(a is Respond),
        !(a is Fail),
        !aborts(txn, a),
    ensures
        ({
            let (t2, e) = apply(txn, price, a);
            let (f2, a2) = flow_step(f, e);
            if a is Commit {
                let o = f->AwaitCommit_order;
                &&& a2 == OrderActionView::Respond { status: 201, order: o }
                &&& t2 == txn
                &&& txn.orders == base.orders.push(o)
                &&& find_by_key(base.orders, u, k) is None
                &&& placed_order(o, u, k)
                &&& covered(base, o)
                &&& txn.cash == cash_effect(base, o)
                &&& txn.holdings == holdings_effect(base, o)
                &&& find_by_key(txn.orders, u, k) == Some(o)
            } else {
                holder_ok(f2, a2, t2, base, u, k)
            }
        }),
{
    lemma_placement_step(f, a, txn, price, u, k, base.orders);
    lemma_effect_step(f, a, txn, price, u, base);
}

/// Every move keeps [`conc_inv`].
#[verifier::rlimit(50)]
pub proof fn lemma_conc_move(
    s: Conc,
    i: nat,
    prices: Seq<Result<Amount, PriceError>>,
    n: nat,
    u: u128,
    k: Seq<char>,
    db0: Db,
)
    requires
        conc_inv(s, n, u, k, db0),
        prices.len() == n,
    ensures
        conc_inv(conc_move(s, i, prices), n, u, k, db0),
{
    if i >= s.flows.len() || s.answers[i as int] is Some {
        return;
    }
    let s2 = conc_move(s, i, prices);
    let (f, a) = s.flows[i as int];
    assert(flow_ok(s, i as int, u, k));
    if let Some(j) = s.committed_by {
        lemma_find_after_push(db0.orders, s.db.orders.last(), u, k);
    }
    if a is Respond || a is Fail {
        if let OrderActionView::Respond { status, order } = a {
            if status == 200 {
                if s.committed_by is None {
                    assert(find_by_key(s.db.orders, u, k) is None);
                }
            }
        }
        assert forall|j: int| 0 <= j < n implies #[trigger] flow_ok(s2, j, u, k) by {
            assert(flow_ok(s, j, u, k));
        }
    } else if a is LockUser {
        if s.lock is None {
            lemma_lock_step(f, a, u, k, s.db, prices[i as int]);
            assert forall|j: int| 0 <= j < n implies #[trigger] flow_ok(s2, j, u, k) by {
                assert(flow_ok(s, j, u, k));
            }
        }
    } else if s.lock == Some(i) {
        if aborts(s.txn, a) {
            assert forall|j: int| 0 <= j < n implies #[trigger] flow_ok(s2, j, u, k) by {
                assert(flow_ok(s, j, u, k));
            }
        } else {
            lemma_holder_step(f, a, u, k, s.txn, s.db, prices[i as int]);
            if a is Commit {
                assert(s.committed_by is None);
                let o = f->AwaitCommit_order;
                assert(s2.db.orders.last() == o);
                assert forall|j: int| 0 <= j < n implies #[trigger] flow_ok(s2, j, u, k) by {
                    assert(flow_ok(s, j, u, k));
                    if j != i {
                        let (fj, aj) = s.flows[j];
                        if s.answers[j] is None {
                            if let OrderActionView::Respond { status, order } = aj {
                                assert(find_by_key(s.db.orders, u, k) is None);
                            }
                        }
                    }
                }
            } else {
                assert forall|j: int| 0 <= j < n implies #[trigger] flow_ok(s2, j, u, k) by {
                    assert(flow_ok(s, j, u, k));
                }
            }
        }
    } else {
        lemma_idle_step(f, a, u, k, s.db, prices[i as int]);
        assert forall|j: int| 0 <= j < n implies #[trigger] flow_ok(s2, j, u, k) by {
            assert(flow_ok(s, j, u, k));
        }
    }
}

/// Every schedule keeps [`conc_inv`].
pub proof fn lemma_conc_run(
    s: Conc,
    schedule: Seq<nat>,
    prices: Seq<Result<Amount, PriceError>>,
    n: nat,
    u: u128,
    k: Seq<char>,
    db0: Db,
)
    requires
        conc_inv(s, n, u, k, db0),
        prices.len() == n,
    ensures
        conc_inv(conc_run(s, schedule, prices), n, u, k, db0),
    decreases schedule.len(),
{
    if schedule.len() > 0 {
        lemma_conc_move(s, schedule[0], prices, n, u, k, db0);
        lemma_conc_run(conc_move(s, schedule[0], prices), schedule.drop_first(), prices, n, u, k, db0);
    }
}

/// The request was answered 201.
pub open spec fn is_201(x: Option<Option<Answer>>) -> bool {
    x matches Some(Some(Ok((status, _)))) && status == 201
}

/// Requests of one user with one idempotency key, placed at the same time in
/// any interleaving, place at most one order: whatever the schedule, the
/// committed data holds no new order and no request was answered with one,
/// or it holds exactly one new order, of that user under that key, with its
/// balance effect applied once; every request answered with an order was
/// answered with that one, at most one of them with 201 (the rest 200), and
/// once all have finished, one of them was.
pub proof fn law_concurrent_same_key(
    sub: Seq<char>,
    reqs: Seq<CreateOrderRequestView>,
    prices: Seq<Result<Amount, PriceError>>,
    db: Db,
    schedule: Seq<nat>,
)
    requires
        uuid_parse(sub) is Some,
        reqs.len() > 0,
        prices.len() == reqs.len(),
        key_check(reqs[0].client_order_id) is Ok,
        forall|i: int| 0 <= i < reqs.len() ==> #[trigger] key_check(reqs[i].client_order_id) == key_check(
            reqs[0].client_order_id,
        ),
        find_by_key(db.orders, uuid_parse(sub)->Some_0, key_check(reqs[0].client_order_id)->Ok_0) is None,
    ensures
        ({
            let u = uuid_parse(sub)->Some_0;
            let k = key_check(reqs[0].client_order_id)->Ok_0;
            let s = conc_run(conc_start(sub, reqs, db), schedule, prices);
            &&& find_by_key(s.db.orders, u, k) is None ==> s.db == db && forall|i: int|
                0 <= i < reqs.len() ==> !(#[trigger] s.answers[i] matches Some(Some(Ok(_))))
            &&& find_by_key(s.db.orders, u, k) matches Some(o) ==> {
                &&& s.db.orders == db.orders.push(o)
                &&& placed_order(o, u, k)
                &&& covered(db, o)
                &&& s.db.cash == cash_effect(db, o)
                &&& s.db.holdings == holdings_effect(db, o)
            }
            &&& forall|i: int| 0 <= i < reqs.len() ==> (#[trigger] s.answers[i] matches Some(Some(Ok((status, o))))
                ==> find_by_key(s.db.orders, u, k) == Some(o) && (status == 200 || status == 201))
            &&& forall|i: int, j: int|
                0 <= i < reqs.len() && 0 <= j < reqs.len() && is_201(#[trigger] s.answers[i]) && is_201(
                    #[trigger] s.answers[j],
                ) ==> i == j
            &&& (find_by_key(s.db.orders, u, k) is Some && forall|i: int| 0 <= i < reqs.len() ==> #[trigger] s.answers[i]
                is Some) ==> exists|i: int| 0 <= i < reqs.len() && is_201(#[trigger] s.answers[i])
        }),
{
    let u = uuid_parse(sub)->Some_0;
    let k = key_check(reqs[0].client_order_id)->Ok_0;
    let n = reqs.len();
    let s0 = conc_start(sub, reqs, db);
    assert forall|j: int| 0 <= j < n implies #[trigger] flow_ok(s0, j, u, k) by {
        assert(key_check(reqs[j].client_order_id) == key_check(reqs[0].client_order_id));
    }
    lemma_conc_run(s0, schedule, prices, n, u, k, db);
    let s = conc_run(s0, schedule, prices);
    if let Some(c) = s.committed_by {
        lemma_find_after_push(db.orders, s.db.orders.last(), u, k);
    }
    assert forall|i: int| 0 <= i < n implies !(#[trigger] s.answers[i] matches Some(Some(Ok(_)))) || s.committed_by is Some by {
        assert(flow_ok(s, i, u, k));
    }
    assert forall|i: int| 0 <= i < n implies (#[trigger] s.answers[i] matches Some(Some(Ok((status, o))))
        ==> find_by_key(s.db.orders, u, k) == Some(o) && (status == 200 || status == 201)) by {
        assert(flow_ok(s, i, u, k));
    }
    assert forall|i: int, j: int|
        0 <= i < n && 0 <= j < n && is_201(#[trigger] s.answers[i]) && is_201(#[trigger] s.answers[j]) implies i
        == j by {
        assert(flow_ok(s, i, u, k));
        assert(flow_ok(s, j, u, k));
    }
    if find_by_key(s.db.orders, u, k) is Some && forall|i: int| 0 <= i < n ==> #[trigger] s.answers[i] is Some {
        let c = s.committed_by->Some_0;
        assert(s.answers[c as int] is Some);
    }
}

} // verus!
