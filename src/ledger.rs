//! The ledger's rules on single records: what a wager and a transfer decide,
//! before anything is stored.
use vstd::prelude::*;
use crate::account::UserData;
use crate::cooldown::{remaining, remaining_spec, PACT_COOLDOWN};
use crate::outcome::Draw;

verus! {

/// What `bind` did.
#[derive(Clone, Copy, Debug, PartialEq, Eq, Structural)]
pub enum BindOutcome {
    Created,
    AlreadyBound,
    /// Writing the new record failed; the account was not created.
    PersistenceError,
}

/// How a validated wager came out, with the percentage drawn and the amount
/// moved.
#[derive(Clone, Copy, Debug, PartialEq, Eq, Structural)]
pub enum Resolution {
    Win { pct: u32, gained: i64 },
    Loss { pct: u32, lost: i64 },
}

/// What `pact` did.
#[derive(Clone, Copy, Debug, PartialEq, Eq, Structural)]
pub enum PactOutcome {
    /// The account has not been bound.
    NotBound,
    /// The cooldown has `remaining` seconds left.
    CooldownActive { remaining: u64 },
    /// The stake is not positive.
    InvalidStake,
    /// The stake exceeds the balance.
    InsufficientFunds { balance: i64 },
    /// A win would take the balance past what an `i64` holds.
    BalanceOverflow,
    /// The wager was decided and the account updated.
    Resolved { resolution: Resolution, new_balance: i64 },
    /// Writing the updated record failed; nothing was committed.
    PersistenceError,
}

/// What `pay` did.
#[derive(Clone, Copy, Debug, PartialEq, Eq, Structural)]
pub enum PayOutcome {
    Transferred { new_sender_balance: i64, new_recipient_balance: i64 },
    SelfPay,
    InvalidAmount,
    SenderNotBound,
    RecipientNotBound,
    InsufficientFunds { balance: i64 },
    /// The credit would take the recipient's balance past what an `i64` holds.
    BalanceOverflow,
    /// A read or write of the accounts failed, and the sender's debit, if
    /// written, was written back: the accounts are as they were.
    PersistenceError,
    /// The credit failed and so did restoring the sender: the sender has been
    /// debited by `sender_delta` (negative) while the recipient's
    /// `recipient_delta` was not applied.
    ReconciliationRequired { sender_delta: i64, recipient_delta: i64 },
}

/// The part of `stake` that a wager at `pct` percent moves, rounded down to
/// whole hundredths.
pub open spec fn stake_share(stake: int, pct: int) -> int {
    stake * pct / 100
}

/// A wager of `stake` on `acc` at time `now` with the draws `draw`.
pub open spec fn pact_spec(acc: UserData, now: u64, stake: i64, draw: Draw) -> PactOutcome {
    match remaining_spec(now, acc.last_pact, PACT_COOLDOWN) {
        Some(left) => PactOutcome::CooldownActive { remaining: left },
        None => if stake <= 0 {
            PactOutcome::InvalidStake
        } else if stake > acc.balance {
            PactOutcome::InsufficientFunds { balance: acc.balance }
        } else {
            let share = stake_share(stake as int, draw.pct as int);
            if draw.win {
                if acc.balance + share > i64::MAX {
                    PactOutcome::BalanceOverflow
                } else {
                    PactOutcome::Resolved {
                        resolution: Resolution::Win { pct: draw.pct, gained: share as i64 },
                        new_balance: (acc.balance + share) as i64,
                    }
                }
            } else {
                PactOutcome::Resolved {
                    resolution: Resolution::Loss { pct: draw.pct, lost: share as i64 },
                    new_balance: (acc.balance - share) as i64,
                }
            }
        },
    }
}

/// Decides a wager of `stake` on the account `acc` at time `now`, given the
/// draws: the cooldown first, then the stake, then the draws.
pub fn resolve_pact(acc: &UserData, now: u64, stake: i64, draw: Draw) -> (r: PactOutcome)
    requires
        draw.is_valid(),
    ensures
        r == pact_spec(*acc, now, stake, draw),
        r is Resolved ==> now > acc.last_pact,
{
    if let Some(left) = remaining(now, acc.last_pact, PACT_COOLDOWN) {
        return PactOutcome::CooldownActive { remaining: left };
    }
    if stake <= 0 {
        return PactOutcome::InvalidStake;
    }
    if stake > acc.balance {
        return PactOutcome::InsufficientFunds { balance: acc.balance };
    }
    assert((stake as int) * (draw.pct as int) <= (stake as int) * 32) by (nonlinear_arith)
        requires
            0 < stake,
            draw.pct <= 32,
    {}
    let wide: u128 = (stake as u128) * (draw.pct as u128) / 100;
    assert(wide <= stake) by (nonlinear_arith)
        requires
            wide == (stake as int) * (draw.pct as int) / 100,
            0 < stake,
            draw.pct <= 32,
    {}
    let share: i64 = wide as i64;
    if draw.win {
        if share > i64::MAX - acc.balance {
            PactOutcome::BalanceOverflow
        } else {
            PactOutcome::Resolved {
                resolution: Resolution::Win { pct: draw.pct, gained: share },
                new_balance: acc.balance + share,
            }
        }
    } else {
        PactOutcome::Resolved {
            resolution: Resolution::Loss { pct: draw.pct, lost: share },
            new_balance: acc.balance - share,
        }
    }
}

/// A transfer of `amount` between two accounts, given whether their
/// identifiers are equal and their records (`None` where unbound), checked
/// in order.
pub open spec fn pay_decision(
    same_account: bool,
    amount: i64,
    sender: Option<UserData>,
    recipient: Option<UserData>,
) -> PayOutcome {
    if same_account {
        PayOutcome::SelfPay
    } else if amount <= 0 {
        PayOutcome::InvalidAmount
    } else if sender is None {
        PayOutcome::SenderNotBound
    } else if recipient is None {
        PayOutcome::RecipientNotBound
    } else if amount > sender.unwrap().balance {
        PayOutcome::InsufficientFunds { balance: sender.unwrap().balance }
    } else if recipient.unwrap().balance + amount > i64::MAX {
        PayOutcome::BalanceOverflow
    } else {
        PayOutcome::Transferred {
            new_sender_balance: (sender.unwrap().balance - amount) as i64,
            new_recipient_balance: (recipient.unwrap().balance + amount) as i64,
        }
    }
}

/// A transfer of `amount` from the account `from` to the account `to`.
pub open spec fn pay_spec(
    from: Seq<char>,
    to: Seq<char>,
    amount: i64,
    sender: Option<UserData>,
    recipient: Option<UserData>,
) -> PayOutcome {
    pay_decision(from == to, amount, sender, recipient)
}

/// The checks on a transfer that need no account: that the two
/// identifiers differ and that the amount is positive. `None` when both
/// pass.
pub fn check_pay_request(same_account: bool, amount: i64) -> (r: Option<PayOutcome>)
    ensures
        r == if same_account {
            Some(PayOutcome::SelfPay)
        } else if amount <= 0 {
            Some(PayOutcome::InvalidAmount)
        } else {
            None::<PayOutcome>
        },
{
    if same_account {
        Some(PayOutcome::SelfPay)
    } else if amount <= 0 {
        Some(PayOutcome::InvalidAmount)
    } else {
        None
    }
}

/// Decides a transfer of `amount` between two accounts, given whether their
/// identifiers are equal and their records (`None` where unbound).
/// `Transferred` carries the balances that the two records are to take.
pub fn check_pay(
    same_account: bool,
    amount: i64,
    sender: Option<UserData>,
    recipient: Option<UserData>,
) -> (r: PayOutcome)
    ensures
        r == pay_decision(same_account, amount, sender, recipient),
{
    if let Some(refused) = check_pay_request(same_account, amount) {
        return refused;
    }
    let s = match sender {
        Some(s) => s,
        None => return PayOutcome::SenderNotBound,
    };
    let t = match recipient {
        Some(t) => t,
        None => return PayOutcome::RecipientNotBound,
    };
    if amount > s.balance {
        return PayOutcome::InsufficientFunds { balance: s.balance };
    }
    match t.balance.checked_add(amount) {
        Some(credited) => PayOutcome::Transferred {
            new_sender_balance: s.balance - amount,
            new_recipient_balance: credited,
        },
        None => PayOutcome::BalanceOverflow,
    }
}

} // verus!
