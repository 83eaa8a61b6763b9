//! Properties of the ledger operations that span several calls.
use vstd::prelude::*;
use crate::account::UserData;
use crate::balance::{
    bind_effect, bind_on, lookup, pact_effect, pact_on, pay_effect, pay_on,
};
use crate::cooldown::PACT_COOLDOWN;
use crate::ledger::{stake_share, BindOutcome, PactOutcome, PayOutcome};
use crate::outcome::Draw;

verus! {

/// The balance of `id` in `m`, counting an unbound identifier as zero.
pub open spec fn held(m: Map<Seq<char>, UserData>, id: Seq<char>) -> int {
    if m.contains_key(id) {
        m[id].balance as int
    } else {
        0
    }
}

/// The sum of the balances of the accounts `ids` in `m`.
pub open spec fn total(m: Map<Seq<char>, UserData>, ids: Seq<Seq<char>>) -> int
    decreases ids.len(),
{
    if ids.len() == 0 {
        0
    } else {
        held(m, ids[0]) + total(m, ids.drop_first())
    }
}

/// A transfer: sender, recipient and amount.
pub type Transfer = (Seq<char>, Seq<char>, i64);

/// Every transfer of `ts`, made one after another from the accounts `m`,
/// succeeds.
pub open spec fn all_transferred(m: Map<Seq<char>, UserData>, ts: Seq<Transfer>) -> bool
    decreases ts.len(),
{
    if ts.len() == 0 {
        true
    } else {
        pay_on(m, ts[0].0, ts[0].1, ts[0].2) is Transferred && all_transferred(
            pay_effect(m, ts[0].0, ts[0].1, ts[0].2),
            ts.drop_first(),
        )
    }
}

/// The accounts after the transfers `ts`, made one after another from `m`.
pub open spec fn after_transfers(m: Map<Seq<char>, UserData>, ts: Seq<Transfer>) -> Map<
    Seq<char>,
    UserData,
>
    decreases ts.len(),
{
    if ts.len() == 0 {
        m
    } else {
        after_transfers(pay_effect(m, ts[0].0, ts[0].1, ts[0].2), ts.drop_first())
    }
}

/// Every sender and recipient of `ts` is one of `ids`.
pub open spec fn within(ts: Seq<Transfer>, ids: Seq<Seq<char>>) -> bool {
    forall|i: int| 0 <= i < ts.len() ==> ids.contains(#[trigger] ts[i].0) && ids.contains(ts[i].1)
}

proof fn lemma_total_insert(m: Map<Seq<char>, UserData>, ids: Seq<Seq<char>>, k: Seq<char>, v: UserData)
    requires
        ids.no_duplicates(),
        m.contains_key(k),
    ensures
        total(m.insert(k, v), ids) == total(m, ids) + if ids.contains(k) {
            v.balance - m[k].balance
        } else {
            0
        },
    decreases ids.len(),
{
    if ids.len() > 0 {
        let rest = ids.drop_first();
        assert(rest.no_duplicates());
        lemma_total_insert(m, rest, k, v);
        if ids[0] == k {
            assert(!rest.contains(k));
        } else if ids.contains(k) {
            let i = choose|i: int| 0 <= i < ids.len() && ids[i] == k;
            assert(rest[i - 1] == k);
        } else {
            assert forall|i: int| 0 <= i < rest.len() implies rest[i] != k by {
                assert(ids[i + 1] == rest[i]);
            }
        }
    }
}

/// A successful transfer between two of the accounts `ids` leaves the sum
/// of their balances unchanged.
pub proof fn lemma_pay_conserves(
    m: Map<Seq<char>, UserData>,
    from: Seq<char>,
    to: Seq<char>,
    amount: i64,
    ids: Seq<Seq<char>>,
)
    requires
        ids.no_duplicates(),
        ids.contains(from),
        ids.contains(to),
        pay_on(m, from, to, amount) is Transferred,
    ensures
        total(pay_effect(m, from, to, amount), ids) == total(m, ids),
{
    let sender = UserData {
        balance: (m[from].balance - amount) as i64,
        last_pact: m[from].last_pact,
    };
    let recipient = UserData { balance: (m[to].balance + amount) as i64, last_pact: m[to].last_pact };
    let m1 = m.insert(from, sender);
    lemma_total_insert(m, ids, from, sender);
    lemma_total_insert(m1, ids, to, recipient);
}

/// Conservation: after any run of successful transfers among the accounts
/// `ids`, the sum of their balances is what it was before.
pub proof fn lemma_conservation(m: Map<Seq<char>, UserData>, ts: Seq<Transfer>, ids: Seq<Seq<char>>)
    requires
        ids.no_duplicates(),
        within(ts, ids),
        all_transferred(m, ts),
    ensures
        total(after_transfers(m, ts), ids) == total(m, ids),
    decreases ts.len(),
{
    if ts.len() > 0 {
        assert(ids.contains(ts[0].0) && ids.contains(ts[0].1));
        lemma_pay_conserves(m, ts[0].0, ts[0].1, ts[0].2, ids);
        let rest = ts.drop_first();
        assert forall|i: int| 0 <= i < rest.len() implies ids.contains(#[trigger] rest[i].0) && ids.contains(
            rest[i].1,
        ) by {
            assert(rest[i] == ts[i + 1]);
        }
        lemma_conservation(pay_effect(m, ts[0].0, ts[0].1, ts[0].2), rest, ids);
    }
}

/// Binding twice: the first bind of an unbound identifier creates the
/// account, the second reports it already bound and changes nothing, so the
/// balance after both is the balance after the first. Binding is idempotent
/// on any accounts.
pub proof fn lemma_bind_idempotent(m: Map<Seq<char>, UserData>, id: Seq<char>)
    ensures
        !m.contains_key(id) ==> bind_on(m, id) == BindOutcome::Created,
        bind_on(bind_effect(m, id), id) == BindOutcome::AlreadyBound,
        bind_effect(bind_effect(m, id), id) == bind_effect(m, id),
        bind_effect(m, id).contains_key(id),
        bind_effect(bind_effect(m, id), id)[id].balance == bind_effect(m, id)[id].balance,
        !m.contains_key(id) ==> bind_effect(m, id)[id].balance == 0,
        m.contains_key(id) ==> bind_effect(m, id) == m,
{
}

/// Cooldown: a wager right after one made at `now` is refused with the whole
/// window left and changes nothing; a wager a full window later passes the
/// cooldown check.
pub proof fn lemma_cooldown_enforced(
    m: Map<Seq<char>, UserData>,
    id: Seq<char>,
    now: u64,
    stake: i64,
    draw: Draw,
)
    requires
        m.contains_key(id),
        m[id].last_pact == now,
        now + PACT_COOLDOWN <= u64::MAX,
    ensures
        pact_on(m, id, now, stake, draw) == (PactOutcome::CooldownActive { remaining: PACT_COOLDOWN }),
        0 < PACT_COOLDOWN <= 86400,
        pact_effect(m, id, now, stake, draw) == m,
        !(pact_on(m, id, (now + PACT_COOLDOWN) as u64, stake, draw) is CooldownActive),
{
}

/// Stake boundary: once the cooldown has passed, a stake equal to a
/// positive balance is accepted, and a stake one hundredth above it is
/// refused for want of funds. Where a win cannot take the balance past what
/// an `i64` holds, the wager at the whole balance is resolved and stored
/// with its time.
pub proof fn lemma_stake_boundary(m: Map<Seq<char>, UserData>, id: Seq<char>, now: u64, draw: Draw)
    requires
        m.contains_key(id),
        now >= m[id].last_pact + PACT_COOLDOWN,
        0 < m[id].balance < i64::MAX,
        draw.is_valid(),
    ensures
        !(pact_on(m, id, now, m[id].balance, draw) is InsufficientFunds),
        !(pact_on(m, id, now, m[id].balance, draw) is InvalidStake),
        pact_on(m, id, now, (m[id].balance + 1) as i64, draw) == (PactOutcome::InsufficientFunds {
            balance: m[id].balance,
        }),
        m[id].balance <= i64::MAX / 2 ==> pact_on(m, id, now, m[id].balance, draw) is Resolved,
        m[id].balance <= i64::MAX / 2 ==> pact_effect(m, id, now, m[id].balance, draw)[id].last_pact == now,
{
    let b = m[id].balance;
    assert(stake_share(b as int, draw.pct as int) <= b) by (nonlinear_arith)
        requires
            0 < b,
            draw.pct <= 32,
    {}
}

/// A wager: account, time, stake and draws.
pub type Wager = (Seq<char>, u64, i64, Draw);

/// The accounts after the wagers `ws`, made one after another from `m`.
pub open spec fn after_wagers(m: Map<Seq<char>, UserData>, ws: Seq<Wager>) -> Map<Seq<char>, UserData>
    decreases ws.len(),
{
    if ws.len() == 0 {
        m
    } else {
        after_wagers(pact_effect(m, ws[0].0, ws[0].1, ws[0].2, ws[0].3), ws.drop_first())
    }
}

/// No two wagers of `ws` are on the same account.
pub open spec fn distinct_accounts(ws: Seq<Wager>) -> bool {
    forall|p: int, q: int| 0 <= p < q < ws.len() ==> #[trigger] ws[p].0 != #[trigger] ws[q].0
}

proof fn lemma_wagers_elsewhere(m: Map<Seq<char>, UserData>, ws: Seq<Wager>, k: Seq<char>)
    requires
        forall|j: int| 0 <= j < ws.len() ==> #[trigger] ws[j].0 != k,
    ensures
        lookup(after_wagers(m, ws), k) == lookup(m, k),
    decreases ws.len(),
{
    if ws.len() > 0 {
        assert(ws[0].0 != k);
        let rest = ws.drop_first();
        assert forall|j: int| 0 <= j < rest.len() implies #[trigger] rest[j].0 != k by {
            assert(rest[j] == ws[j + 1]);
        }
        lemma_wagers_elsewhere(pact_effect(m, ws[0].0, ws[0].1, ws[0].2, ws[0].3), rest, k);
    }
}

/// No lost updates: wagers on distinct accounts, each applied with
/// exclusive access to its account, leave every account exactly as its own
/// wager alone would have left it.
pub proof fn lemma_no_lost_updates(m: Map<Seq<char>, UserData>, ws: Seq<Wager>, i: int)
    requires
        distinct_accounts(ws),
        0 <= i < ws.len(),
    ensures
        lookup(after_wagers(m, ws), ws[i].0) == lookup(
            pact_effect(m, ws[i].0, ws[i].1, ws[i].2, ws[i].3),
            ws[i].0,
        ),
    decreases ws.len(),
{
    let m1 = pact_effect(m, ws[0].0, ws[0].1, ws[0].2, ws[0].3);
    let rest = ws.drop_first();
    if i == 0 {
        assert forall|j: int| 0 <= j < rest.len() implies #[trigger] rest[j].0 != ws[0].0 by {
            assert(rest[j] == ws[j + 1]);
        }
        lemma_wagers_elsewhere(m1, rest, ws[0].0);
    } else {
        assert forall|p: int, q: int| 0 <= p < q < rest.len() implies #[trigger] rest[p].0
            != #[trigger] rest[q].0 by {
            assert(rest[p] == ws[p + 1] && rest[q] == ws[q + 1]);
        }
        assert(rest[i - 1] == ws[i]);
        lemma_no_lost_updates(m1, rest, i - 1);
        assert(ws[0].0 != ws[i].0);
        assert(lookup(m1, ws[i].0) == lookup(m, ws[i].0));
    }
}

} // verus!
