//! The ledger operations on an account store: bind, balance, wager and
//! transfer.
use vstd::prelude::*;
use crate::account::{fresh_account, UserData};
use crate::ledger::{check_pay, pact_spec, pay_spec, resolve_pact, BindOutcome, PactOutcome, PayOutcome};
use crate::outcome::{draw_outcome, Draw};
use crate::store::AccountStore;

verus! {

/// The record of `id` in `m`, or `None` when it is not bound.
pub open spec fn lookup(m: Map<Seq<char>, UserData>, id: Seq<char>) -> Option<UserData> {
    if m.contains_key(id) {
        Some(m[id])
    } else {
        None
    }
}

/// What `bind` reports on the accounts `m`.
pub open spec fn bind_on(m: Map<Seq<char>, UserData>, id: Seq<char>) -> BindOutcome {
    if m.contains_key(id) {
        BindOutcome::AlreadyBound
    } else {
        BindOutcome::Created
    }
}

/// The accounts after `bind`: a fresh record for `id` if it had none.
pub open spec fn bind_effect(m: Map<Seq<char>, UserData>, id: Seq<char>) -> Map<Seq<char>, UserData> {
    if m.contains_key(id) {
        m
    } else {
        m.insert(id, fresh_account())
    }
}

/// What a wager reports on the accounts `m`.
pub open spec fn pact_on(
    m: Map<Seq<char>, UserData>,
    id: Seq<char>,
    now: u64,
    stake: i64,
    draw: Draw,
) -> PactOutcome {
    match lookup(m, id) {
        Some(acc) => pact_spec(acc, now, stake, draw),
        None => PactOutcome::NotBound,
    }
}

/// The accounts after a wager: only a resolved one changes a record, and it
/// sets both the balance and the time of the wager.
pub open spec fn pact_effect(
    m: Map<Seq<char>, UserData>,
    id: Seq<char>,
    now: u64,
    stake: i64,
    draw: Draw,
) -> Map<Seq<char>, UserData> {
    match pact_on(m, id, now, stake, draw) {
        PactOutcome::Resolved { new_balance, .. } => m.insert(
            id,
            UserData { balance: new_balance, last_pact: now },
        ),
        _ => m,
    }
}

/// What a transfer reports on the accounts `m`.
pub open spec fn pay_on(m: Map<Seq<char>, UserData>, from: Seq<char>, to: Seq<char>, amount: i64) -> PayOutcome {
    pay_spec(from, to, amount, lookup(m, from), lookup(m, to))
}

/// The accounts after a transfer: on success the sender is debited and the
/// recipient credited, their wager times kept; otherwise nothing changes.
pub open spec fn pay_effect(
    m: Map<Seq<char>, UserData>,
    from: Seq<char>,
    to: Seq<char>,
    amount: i64,
) -> Map<Seq<char>, UserData> {
    match pay_on(m, from, to, amount) {
        PayOutcome::Transferred { new_sender_balance, new_recipient_balance } => m.insert(
            from,
            UserData { balance: new_sender_balance, last_pact: m[from].last_pact },
        ).insert(to, UserData { balance: new_recipient_balance, last_pact: m[to].last_pact }),
        _ => m,
    }
}

/// Binds `user_id` to a fresh account unless it is already bound, in which
/// case nothing changes.
pub fn bind_user(store: &mut AccountStore, user_id: &str) -> (r: BindOutcome)
    ensures
        r == bind_on(old(store)@, user_id@),
        final(store)@ == bind_effect(old(store)@, user_id@),
{
    if store.is_user_bound(user_id) {
        return BindOutcome::AlreadyBound;
    }
    let fresh = UserData::default();
    store.save_user_data(user_id, &fresh);
    BindOutcome::Created
}

/// The balance of `user_id`, which the caller has checked to be bound.
pub fn get_balance(store: &AccountStore, user_id: &str) -> (r: i64)
    requires
        store@.contains_key(user_id@),
    ensures
        r == store@[user_id@].balance,
{
    store.load_user_data(user_id).unwrap().balance
}

/// A wager of `stake` by `user_id` at time `now`, decided by the draws
/// `draw`; a resolved wager is stored as one update of the account.
pub fn pact_with_draw(store: &mut AccountStore, user_id: &str, stake: i64, now: u64, draw: Draw) -> (r:
    PactOutcome)
    requires
        draw.is_valid(),
    ensures
        r == pact_on(old(store)@, user_id@, now, stake, draw),
        final(store)@ == pact_effect(old(store)@, user_id@, now, stake, draw),
{
    let acc = match store.load_user_data(user_id) {
        Some(acc) => acc,
        None => return PactOutcome::NotBound,
    };
    let outcome = resolve_pact(&acc, now, stake, draw);
    if let PactOutcome::Resolved { new_balance, .. } = outcome {
        store.save_user_data(user_id, &UserData { balance: new_balance, last_pact: now });
    }
    outcome
}

/// A wager of `stake` by `user_id` at time `now`, with freshly drawn
/// outcomes: it comes out as `pact_with_draw` does for some valid draw.
pub fn perform_pact(store: &mut AccountStore, user_id: &str, stake: i64, now: u64) -> (r: PactOutcome)
    ensures
        exists|draw: Draw|
            draw.is_valid() && r == #[trigger] pact_on(old(store)@, user_id@, now, stake, draw)
                && final(store)@ == pact_effect(old(store)@, user_id@, now, stake, draw),
{
    let draw = draw_outcome();
    let r = pact_with_draw(store, user_id, stake, now, draw);
    assert(r == pact_on(old(store)@, user_id@, now, stake, draw));
    r
}

/// Moves `amount` from `from_user` to `to_user` after checking, in order,
/// that they differ, that the amount is positive, that both are bound, that
/// the sender can cover it and that the recipient's balance can take it.
pub fn pay(store: &mut AccountStore, from_user: &str, to_user: &str, amount: i64) -> (r: PayOutcome)
    ensures
        r == pay_on(old(store)@, from_user@, to_user@, amount),
        final(store)@ == pay_effect(old(store)@, from_user@, to_user@, amount),
{
    let same_account: bool = from_user.to_owned() == to_user.to_owned();
    let sender = store.load_user_data(from_user);
    let recipient = store.load_user_data(to_user);
    let outcome = check_pay(same_account, amount, sender, recipient);
    assert(outcome == pay_on(store@, from_user@, to_user@, amount));
    if let PayOutcome::Transferred { new_sender_balance, new_recipient_balance } = outcome {
        let s = sender.unwrap();
        let t = recipient.unwrap();
        store.save_user_data(from_user, &UserData { balance: new_sender_balance, last_pact: s.last_pact });
        store.save_user_data(to_user, &UserData { balance: new_recipient_balance, last_pact: t.last_pact });
    }
    outcome
}

} // verus!
