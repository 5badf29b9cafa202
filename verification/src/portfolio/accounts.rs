//! Reading accounts: the caller's identity, portfolios, orders and profile,
//! each readable only by its owner.

use vstd::prelude::*;

use crate::decimal::{decimal_text, Amount};
use crate::ids::{parse_uuid, uuid_parse, uuid_text, uuid_to_string};
use crate::portfolio::exception::{HttpException, HttpExceptionView};
use crate::portfolio::orders::{opt_order_view, Order, OrderResponse, OrderView};

verus! {

/// A stored user.
#[derive(Debug)]
pub struct UserRecord {
    pub id: u128,
    pub username: String,
    pub cash_balance: Amount,
    /// Creation time, in microseconds since the Unix epoch.
    pub created_at: i64,
}

/// A stored balance of one asset.
#[derive(Debug)]
pub struct AssetBalance {
    pub symbol: String,
    pub quantity: Amount,
}

/// One asset of a portfolio, as answered.
#[derive(Debug)]
pub struct AssetBalanceDto {
    pub symbol: String,
    pub quantity: String,
}

/// A portfolio, as answered.
#[derive(Debug)]
pub struct PortfolioResponse {
    pub user_id: String,
    pub username: String,
    pub cash_balance: String,
    pub assets: Vec<AssetBalanceDto>,
}

/// The caller's profile, as answered by `GET /users/me`.
#[derive(Debug)]
pub struct Response {
    pub id: String,
    pub username: String,
    pub created_at: i64,
}

/// The user id in a token subject.
pub open spec fn token_user(sub: Seq<char>) -> Result<u128, HttpExceptionView> {
    match uuid_parse(sub) {
        Some(u) => Ok(u),
        None => Err(HttpExceptionView::Internal("invalid user id in token"@)),
    }
}

/// Reads the caller's user id from the token subject.
pub fn user_id_from_token(sub: &str) -> (r: Result<u128, HttpException>)
    ensures
        match r {
            Ok(u) => token_user(sub@) == Ok::<u128, HttpExceptionView>(u),
            Err(e) => token_user(sub@) == Err::<u128, HttpExceptionView>(e@),
        },
{
    match parse_uuid(sub) {
        Some(u) => Ok(u),
        None => Err(HttpException::internal("invalid user id in token")),
    }
}

/// Whose portfolio is read: the requested user, who must be the caller.
pub open spec fn portfolio_owner_spec(sub: Seq<char>, path_id: Seq<char>) -> Result<u128, HttpExceptionView> {
    match token_user(sub) {
        Err(e) => Err(e),
        Ok(caller) => match uuid_parse(path_id) {
            None => Err(HttpExceptionView::BadRequest("invalid user id format"@)),
            Some(requested) => if caller != requested {
                Err(HttpExceptionView::Forbidden("cannot access another user's portfolio"@))
            } else {
                Ok(caller)
            },
        },
    }
}

/// Checks that the caller asks for their own portfolio.
pub fn portfolio_owner(sub: &str, path_id: &str) -> (r: Result<u128, HttpException>)
    ensures
        match r {
            Ok(u) => portfolio_owner_spec(sub@, path_id@) == Ok::<u128, HttpExceptionView>(u),
            Err(e) => portfolio_owner_spec(sub@, path_id@) == Err::<u128, HttpExceptionView>(e@),
        },
{
    let caller = match user_id_from_token(sub) {
        Ok(u) => u,
        Err(e) => return Err(e),
    };
    match parse_uuid(path_id) {
        None => Err(HttpException::bad_request("invalid user id format")),
        Some(requested) => {
            if caller != requested {
                Err(HttpException::forbidden("cannot access another user's portfolio"))
            } else {
                Ok(caller)
            }
        },
    }
}

/// The user row the caller's token names, which must exist.
pub fn found_user(user: Option<UserRecord>) -> (r: Result<UserRecord, HttpException>)
    ensures
        match r {
            Ok(u) => user == Some(u),
            Err(e) => user is None && e@ == HttpExceptionView::Internal("user not found"@),
        },
{
    match user {
        Some(u) => Ok(u),
        None => Err(HttpException::internal("user not found")),
    }
}

/// Describes a portfolio: the user, the cash balance, and each asset balance
/// in the order the balances were read.
pub fn portfolio_response(user: UserRecord, balances: Vec<AssetBalance>) -> (r: PortfolioResponse)
    requires
        user.cash_balance.wf(),
        forall|i: int| 0 <= i < balances.len() ==> (#[trigger] balances[i]).quantity.wf(),
    ensures
        r.user_id@ == uuid_text(user.id),
        r.username@ == user.username@,
        r.cash_balance@ == decimal_text(user.cash_balance@),
        r.assets.len() == balances.len(),
        forall|i: int|
            0 <= i < balances.len() ==> (#[trigger] r.assets[i]).symbol@ == balances[i].symbol@ && r.assets[i].quantity@
                == decimal_text(balances[i].quantity@),
{
    let mut assets: Vec<AssetBalanceDto> = Vec::new();
    let n: usize = balances.len();
    let mut i: usize = 0;
    while i < n
        invariant
            n == balances.len(),
            i <= n,
            assets.len() == i,
            forall|j: int| 0 <= j < balances.len() ==> (#[trigger] balances[j]).quantity.wf(),
            forall|j: int|
                0 <= j < i ==> (#[trigger] assets[j]).symbol@ == balances[j].symbol@ && assets[j].quantity@
                    == decimal_text(balances[j].quantity@),
        decreases n - i,
    {
        let b = &balances[i];
        assets.push(AssetBalanceDto { symbol: b.symbol.clone(), quantity: b.quantity.to_text() });
        i = i + 1;
    }
    PortfolioResponse {
        user_id: uuid_to_string(user.id),
        username: user.username,
        cash_balance: user.cash_balance.to_text(),
        assets,
    }
}

/// The caller and the order asked for by `GET /orders/{order_id}`.
pub open spec fn order_lookup_spec(sub: Seq<char>, order_id: Seq<char>) -> Result<(u128, u128), HttpExceptionView> {
    match token_user(sub) {
        Err(e) => Err(e),
        Ok(caller) => match uuid_parse(order_id) {
            None => Err(HttpExceptionView::BadRequest("invalid order id format"@)),
            Some(id) => Ok((caller, id)),
        },
    }
}

/// Reads the caller and the order id of `GET /orders/{order_id}`.
pub fn order_lookup(sub: &str, order_id: &str) -> (r: Result<(u128, u128), HttpException>)
    ensures
        match r {
            Ok(p) => order_lookup_spec(sub@, order_id@) == Ok::<(u128, u128), HttpExceptionView>(p),
            Err(e) => order_lookup_spec(sub@, order_id@) == Err::<(u128, u128), HttpExceptionView>(e@),
        },
{
    let caller = match user_id_from_token(sub) {
        Ok(u) => u,
        Err(e) => return Err(e),
    };
    match parse_uuid(order_id) {
        None => Err(HttpException::bad_request("invalid order id format")),
        Some(id) => Ok((caller, id)),
    }
}

/// The order answered to `caller`: unknown ids are "not found", and orders
/// of other users are forbidden, so an order's existence is only revealed to
/// its owner.
pub open spec fn owned_order_spec(caller: u128, found: Option<OrderView>) -> Result<OrderView, HttpExceptionView> {
    match found {
        None => Err(HttpExceptionView::NotFound("order not found"@)),
        Some(o) => if o.user_id != caller {
            Err(HttpExceptionView::Forbidden("cannot access another user's order"@))
        } else {
            Ok(o)
        },
    }
}

/// Gives the looked-up order to its owner only.
pub fn owned_order(caller: u128, found: Option<Order>) -> (r: Result<Order, HttpException>)
    ensures
        match r {
            Ok(o) => owned_order_spec(caller, opt_order_view(found)) == Ok::<OrderView, HttpExceptionView>(o@),
            Err(e) => owned_order_spec(caller, opt_order_view(found)) == Err::<OrderView, HttpExceptionView>(e@),
        },
{
    match found {
        None => Err(HttpException::not_found("order not found")),
        Some(o) => {
            if o.user_id != caller {
                Err(HttpException::forbidden("cannot access another user's order"))
            } else {
                Ok(o)
            }
        },
    }
}

/// Describes each order, keeping their order.
pub fn order_responses(orders: Vec<Order>) -> (r: Vec<OrderResponse>)
    requires
        forall|i: int|
            0 <= i < orders.len() ==> (#[trigger] orders[i]).quantity.wf() && (orders[i].price matches Some(p)
                ==> p.wf()),
    ensures
        r.len() == orders.len(),
        forall|i: int|
            0 <= i < orders.len() ==> {
                let o = #[trigger] orders[i];
                let d = r[i];
                &&& d.id@ == uuid_text(o.id)
                &&& d.user_id@ == uuid_text(o.user_id)
                &&& d.client_order_id@ == o.client_order_id@
                &&& d.symbol@ == o.symbol@
                &&& d.side == o.side
                &&& d.quantity@ == decimal_text(o.quantity@)
                &&& (d.price is Some <==> o.price is Some)
                &&& (d.price matches Some(t) ==> t@ == decimal_text(o.price->Some_0@))
                &&& d.status == o.status
                &&& d.reject_reason == o.reject_reason
                &&& d.created_at == o.created_at
            },
{
    let ghost old_orders = orders@;
    let mut orders = orders;
    let mut out: Vec<OrderResponse> = Vec::new();
    let n: usize = orders.len();
    let mut taken: Vec<Order> = Vec::new();
    // Take the orders from the back so each one is moved into its response.
    while orders.len() > 0
        invariant
            n == old_orders.len(),
            orders@ == old_orders.take(orders.len() as int),
            taken.len() + orders.len() == n,
            forall|j: int| 0 <= j < taken.len() ==> taken[j] == old_orders[n - 1 - j],
        decreases orders.len(),
    {
        let o = orders.pop().unwrap();
        proof {
            assert(orders@ =~= old_orders.take(orders.len() as int));
        }
        taken.push(o);
    }
    while taken.len() > 0
        invariant
            n == old_orders.len(),
            taken.len() + out.len() == n,
            forall|j: int| 0 <= j < taken.len() ==> taken[j] == old_orders[n - 1 - j],
            forall|j: int|
                0 <= j < old_orders.len() ==> (#[trigger] old_orders[j]).quantity.wf() && (old_orders[j].price matches Some(
                    p,
                ) ==> p.wf()),
            forall|i: int|
                0 <= i < out.len() ==> {
                    let o = #[trigger] old_orders[i];
                    let d = out[i];
                    &&& d.id@ == uuid_text(o.id)
                    &&& d.user_id@ == uuid_text(o.user_id)
                    &&& d.client_order_id@ == o.client_order_id@
                    &&& d.symbol@ == o.symbol@
                    &&& d.side == o.side
                    &&& d.quantity@ == decimal_text(o.quantity@)
                    &&& (d.price is Some <==> o.price is Some)
                    &&& (d.price matches Some(t) ==> t@ == decimal_text(o.price->Some_0@))
                    &&& d.status == o.status
                    &&& d.reject_reason == o.reject_reason
                    &&& d.created_at == o.created_at
                },
        decreases taken.len(),
    {
        let o = taken.pop().unwrap();
        proof {
            assert(o == old_orders[out.len() as int]);
        }
        out.push(OrderResponse::from_order(o));
    }
    out
}

/// Describes the caller's profile: the stored id and creation time, and the
/// username from the token.
pub fn me_response(user: Option<UserRecord>, username: &str) -> (r: Result<Response, HttpException>)
    ensures
        match r {
            Ok(resp) => user matches Some(u) && resp.id@ == uuid_text(u.id) && resp.username@ == username@
                && resp.created_at == u.created_at,
            Err(e) => user is None && e@ == HttpExceptionView::Internal("user not found"@),
        },
{
    match user {
        None => Err(HttpException::internal("user not found")),
        Some(u) => Ok(Response { id: uuid_to_string(u.id), username: String::from_str(username), created_at: u.created_at }),
    }
}

/// A caller reads a portfolio exactly when the token names a user and the
/// path names the same user, and then it is that user's; a token without a
/// user id is an internal error, a path that is not a user id a bad request,
/// and another user's id is forbidden.
pub proof fn law_portfolio_owner(sub: Seq<char>, path_id: Seq<char>)
    ensures
        portfolio_owner_spec(sub, path_id) matches Ok(u) ==> uuid_parse(sub) == Some(u) && uuid_parse(path_id) == Some(u),
        uuid_parse(sub) is Some && uuid_parse(sub) == uuid_parse(path_id) ==> portfolio_owner_spec(sub, path_id)
            == Ok::<u128, HttpExceptionView>(uuid_parse(sub)->Some_0),
        uuid_parse(sub) is None ==> portfolio_owner_spec(sub, path_id) == Err::<u128, HttpExceptionView>(
            HttpExceptionView::Internal("invalid user id in token"@),
        ),
        uuid_parse(sub) is Some && uuid_parse(path_id) is None ==> portfolio_owner_spec(sub, path_id) == Err::<
            u128,
            HttpExceptionView,
        >(HttpExceptionView::BadRequest("invalid user id format"@)),
        uuid_parse(sub) is Some && uuid_parse(path_id) is Some && uuid_parse(sub) != uuid_parse(path_id)
            ==> portfolio_owner_spec(sub, path_id) == Err::<u128, HttpExceptionView>(
            HttpExceptionView::Forbidden("cannot access another user's portfolio"@),
        ),
{
}

/// An order lookup names the caller and the order exactly when both the token
/// subject and the path parse as ids.
pub proof fn law_order_lookup(sub: Seq<char>, order_id: Seq<char>)
    ensures
        uuid_parse(sub) is Some && uuid_parse(order_id) is Some ==> order_lookup_spec(sub, order_id) == Ok::<
            (u128, u128),
            HttpExceptionView,
        >((uuid_parse(sub)->Some_0, uuid_parse(order_id)->Some_0)),
        uuid_parse(sub) is None ==> order_lookup_spec(sub, order_id) == Err::<(u128, u128), HttpExceptionView>(
            HttpExceptionView::Internal("invalid user id in token"@),
        ),
        uuid_parse(sub) is Some && uuid_parse(order_id) is None ==> order_lookup_spec(sub, order_id) == Err::<
            (u128, u128),
            HttpExceptionView,
        >(HttpExceptionView::BadRequest("invalid order id format"@)),
{
}

/// An order is given exactly to its owner: the found order itself when it is
/// the caller's, "not found" when there is none, forbidden when another
/// user's.
pub proof fn law_owned_order(caller: u128, found: Option<OrderView>)
    ensures
        owned_order_spec(caller, found) matches Ok(o) ==> found == Some(o) && o.user_id == caller,
        found matches Some(o) ==> (o.user_id == caller ==> owned_order_spec(caller, found) == Ok::<
            OrderView,
            HttpExceptionView,
        >(o)),
        found matches Some(o) ==> (o.user_id != caller ==> owned_order_spec(caller, found) == Err::<
            OrderView,
            HttpExceptionView,
        >(HttpExceptionView::Forbidden("cannot access another user's order"@))),
        found is None ==> owned_order_spec(caller, found) == Err::<OrderView, HttpExceptionView>(
            HttpExceptionView::NotFound("order not found"@),
        ),
{
}

/// The caller is the user id the token subject parses as; a subject that is
/// not a user id is an internal error (the token was signed by this service).
pub proof fn law_token_user(sub: Seq<char>)
    ensures
        uuid_parse(sub) matches Some(u) ==> token_user(sub) == Ok::<u128, HttpExceptionView>(u),
        uuid_parse(sub) is None ==> token_user(sub) == Err::<u128, HttpExceptionView>(
            HttpExceptionView::Internal("invalid user id in token"@),
        ),
{
}

} // verus!
