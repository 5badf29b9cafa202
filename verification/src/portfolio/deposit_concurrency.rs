//! Several deposits of one user at the same time.
//!
//! A deposit takes the user's row lock (`SELECT ... FOR UPDATE`), which reads
//! the cash balance; then it writes [`deposit_balance`] of what it read,
//! commits, and releases the lock. The deposits' steps interleave in any
//! order (a schedule); a deposit waits while another holds the lock.

use vstd::prelude::*;

use crate::decimal::{amount_of, decimal_add, Amount};
use crate::portfolio::exception::HttpExceptionView;
use crate::portfolio::funds::deposit_balance;

verus! {

/// Where one deposit stands.
pub enum DepositPhase {
    /// Waiting for the row lock.
    Waiting,
    /// Holding the lock, with the cash balance it read (`None`: no such user).
    Holding(Option<Amount>),
    /// Answered: the new balance, or the error.
    Done(Result<Amount, HttpExceptionView>),
}

/// The deposit succeeded.
pub open spec fn done_ok(ph: DepositPhase) -> bool {
    ph matches DepositPhase::Done(Ok(_))
}

/// Deposits of one user in progress at the same time.
pub struct Deposits {
    /// The committed cash balance (`None`: no such user).
    pub cash: Option<Amount>,
    /// Each deposit's phase.
    pub phases: Seq<DepositPhase>,
    /// The deposit holding the row lock, if any.
    pub lock: Option<nat>,
    /// The deposits that committed, in the order they committed.
    pub log: Seq<nat>,
}

/// `n` deposits, none started, against the balance `cash`.
pub open spec fn deposits_start(cash: Option<Amount>, n: nat) -> Deposits {
    Deposits { cash, phases: Seq::new(n, |i: int| DepositPhase::Waiting), lock: None, log: Seq::empty() }
}

/// Deposit `i` (of `amounts[i]`) does its next step.
pub open spec fn deposit_move(s: Deposits, i: nat, amounts: Seq<Amount>) -> Deposits {
    if i >= s.phases.len() {
        s
    } else {
        match s.phases[i as int] {
            DepositPhase::Done(_) => s,
            DepositPhase::Waiting => if s.lock is Some {
                s
            } else {
                Deposits { phases: s.phases.update(i as int, DepositPhase::Holding(s.cash)), lock: Some(i), ..s }
            },
            DepositPhase::Holding(read) => match deposit_balance(read, amounts[i as int]) {
                Err(e) => Deposits { phases: s.phases.update(i as int, DepositPhase::Done(Err(e))), lock: None, ..s },
                Ok(b) => Deposits {
                    cash: Some(b),
                    phases: s.phases.update(i as int, DepositPhase::Done(Ok(b))),
                    lock: None,
                    log: s.log.push(i),
                },
            },
        }
    }
}

/// The deposits do their steps in the order of `schedule`.
pub open spec fn deposits_run(s: Deposits, schedule: Seq<nat>, amounts: Seq<Amount>) -> Deposits
    decreases schedule.len(),
{
    if schedule.len() == 0 {
        s
    } else {
        deposits_run(deposit_move(s, schedule[0], amounts), schedule.drop_first(), amounts)
    }
}

/// The balance after crediting `amts`, one after the other, to `cash`
/// (`None` where there is no user, or a credit overflows).
pub open spec fn credit_all(cash: Option<Amount>, amts: Seq<Amount>) -> Option<Amount>
    decreases amts.len(),
{
    if amts.len() == 0 {
        cash
    } else {
        match credit_all(cash, amts.drop_last()) {
            None => None,
            Some(c) => match decimal_add(c@, amts.last()@) {
                None => None,
                Some(x) => Some(amount_of(x)),
            },
        }
    }
}

/// The amounts of the deposits in `log`, in that order.
pub open spec fn logged(log: Seq<nat>, amounts: Seq<Amount>) -> Seq<Amount> {
    log.map_values(|i: nat| amounts[i as int])
}

/// Deposit `j` is done with the balance that crediting the deposits logged
/// up to position `p` gives.
pub open spec fn logged_at(s: Deposits, p: int, c0: Option<Amount>, amounts: Seq<Amount>) -> bool {
    &&& 0 <= p < s.log.len()
    &&& s.phases[s.log[p] as int] matches DepositPhase::Done(Ok(b)) && credit_all(
        c0,
        logged(s.log.take(p + 1), amounts),
    ) == Some(b)
}

/// What holds at every point of a schedule of `n` deposits started against `c0`.
pub open spec fn deposits_inv(s: Deposits, n: nat, c0: Option<Amount>, amounts: Seq<Amount>) -> bool {
    &&& s.phases.len() == n
    &&& amounts.len() == n
    &&& s.lock matches Some(h) ==> h < n && s.phases[h as int] == DepositPhase::Holding(s.cash)
    &&& forall|j: int| 0 <= j < n && #[trigger] s.phases[j] is Holding ==> s.lock == Some(j as nat)
    &&& s.cash == credit_all(c0, logged(s.log, amounts))
    &&& forall|p: int| 0 <= p < s.log.len() ==> #[trigger] s.log[p] < n && logged_at(s, p, c0, amounts)
    &&& forall|p: int, q: int| 0 <= p < s.log.len() && 0 <= q < s.log.len() && #[trigger] s.log[p] == #[trigger] s.log[q]
        ==> p == q
    &&& forall|j: int| 0 <= j < n && done_ok(#[trigger] s.phases[j]) ==> exists|p: int|
        0 <= p < s.log.len() && #[trigger] s.log[p] == j
}

/// Every step keeps [`deposits_inv`].
#[verifier::rlimit(30)]
pub proof fn lemma_deposit_move(s: Deposits, i: nat, n: nat, c0: Option<Amount>, amounts: Seq<Amount>)
    requires
        deposits_inv(s, n, c0, amounts),
    ensures
        deposits_inv(deposit_move(s, i, amounts), n, c0, amounts),
{
    let s2 = deposit_move(s, i, amounts);
    if i < n {
        if let DepositPhase::Holding(read) = s.phases[i as int] {
            assert(s.lock == Some(i));
            if let Ok(b) = deposit_balance(read, amounts[i as int]) {
                let l2 = s.log.push(i);
                assert(logged(l2, amounts) =~= logged(s.log, amounts).push(amounts[i as int]));
                assert(logged(l2, amounts).drop_last() =~= logged(s.log, amounts));
                assert(l2.take(l2.len() as int) =~= l2);
                assert forall|p: int| 0 <= p < l2.len() implies #[trigger] l2[p] < n && logged_at(s2, p, c0, amounts) by {
                    if p < s.log.len() {
                        assert(l2.take(p + 1) =~= s.log.take(p + 1));
                        assert(logged_at(s, p, c0, amounts));
                        assert(s.log[p] != i) by {
                            if s.log[p] == i {
                                assert(s.phases[i as int] is Done);
                            }
                        }
                    }
                }
                assert forall|j: int| 0 <= j < n && done_ok(#[trigger] s2.phases[j]) implies exists|
                    p: int,
                | 0 <= p < s2.log.len() && #[trigger] s2.log[p] == j by {
                    if j == i {
                        assert(s2.log[s.log.len() as int] == j);
                    } else {
                        let p = choose|p: int| 0 <= p < s.log.len() && #[trigger] s.log[p] == j;
                        assert(s2.log[p] == j);
                    }
                }
                assert forall|p: int, q: int|
                    0 <= p < s2.log.len() && 0 <= q < s2.log.len() && #[trigger] s2.log[p] == #[trigger] s2.log[q] implies p
                    == q by {
                    if p < s.log.len() && q == s.log.len() {
                        assert(logged_at(s, p, c0, amounts));
                    }
                    if q < s.log.len() && p == s.log.len() {
                        assert(logged_at(s, q, c0, amounts));
                    }
                }
            } else {
                assert forall|p: int| 0 <= p < s2.log.len() implies #[trigger] s2.log[p] < n && logged_at(s2, p, c0, amounts) by {
                    assert(logged_at(s, p, c0, amounts));
                }
            }
        } else if s.phases[i as int] is Waiting && s.lock is None {
            assert forall|p: int| 0 <= p < s2.log.len() implies #[trigger] s2.log[p] < n && logged_at(s2, p, c0, amounts) by {
                assert(logged_at(s, p, c0, amounts));
            }
        }
    }
}

/// Every schedule keeps [`deposits_inv`].
pub proof fn lemma_deposits_run(s: Deposits, schedule: Seq<nat>, n: nat, c0: Option<Amount>, amounts: Seq<Amount>)
    requires
        deposits_inv(s, n, c0, amounts),
    ensures
        deposits_inv(deposits_run(s, schedule, amounts), n, c0, amounts),
    decreases schedule.len(),
{
    if schedule.len() > 0 {
        lemma_deposit_move(s, schedule[0], n, c0, amounts);
        lemma_deposits_run(deposit_move(s, schedule[0], amounts), schedule.drop_first(), n, c0, amounts);
    }
}

/// Deposits of one user at the same time lose no update: whatever the
/// schedule, the balance is the starting one credited with exactly the
/// deposits that succeeded, each once, in the order they committed; each
/// succeeded deposit answered the balance after its own credit in that order.
pub proof fn law_concurrent_deposits(cash: Option<Amount>, amounts: Seq<Amount>, schedule: Seq<nat>)
    ensures
        ({
            let s = deposits_run(deposits_start(cash, amounts.len()), schedule, amounts);
            &&& s.cash == credit_all(cash, logged(s.log, amounts))
            &&& forall|p: int, q: int| 0 <= p < s.log.len() && 0 <= q < s.log.len() && #[trigger] s.log[p]
                == #[trigger] s.log[q] ==> p == q
            &&& forall|p: int| 0 <= p < s.log.len() ==> #[trigger] s.log[p] < amounts.len() && logged_at(s, p, cash, amounts)
            &&& forall|j: int| 0 <= j < amounts.len() && done_ok(#[trigger] s.phases[j])
                ==> exists|p: int| 0 <= p < s.log.len() && #[trigger] s.log[p] == j
        }),
{
    let n = amounts.len();
    let s0 = deposits_start(cash, n);
    assert(logged(s0.log, amounts) =~= Seq::<Amount>::empty());
    lemma_deposits_run(s0, schedule, n, cash, amounts);
}

} // verus!
