//! The order of writes when the accounts live in durable storage that may
//! fail: the caller performs each write and reports whether it succeeded,
//! and these functions decide what comes next.
use vstd::prelude::*;
use crate::account::UserData;
use crate::ledger::{check_pay, pay_decision, BindOutcome, PactOutcome, PayOutcome};

verus! {

/// What `bind` reports once the write of the fresh record, if one was
/// needed, has been tried.
pub fn bind_committed(already_bound: bool, write_ok: bool) -> (r: BindOutcome)
    ensures
        r == if already_bound {
            BindOutcome::AlreadyBound
        } else if write_ok {
            BindOutcome::Created
        } else {
            BindOutcome::PersistenceError
        },
{
    if already_bound {
        BindOutcome::AlreadyBound
    } else if write_ok {
        BindOutcome::Created
    } else {
        BindOutcome::PersistenceError
    }
}

/// The record to write for a decided wager: only a resolved wager writes,
/// and it writes the new balance together with the wager's time.
pub fn pact_write(now: u64, outcome: PactOutcome) -> (r: Option<UserData>)
    ensures
        r == match outcome {
            PactOutcome::Resolved { new_balance, .. } => Some(
                UserData { balance: new_balance, last_pact: now },
            ),
            _ => None::<UserData>,
        },
{
    match outcome {
        PactOutcome::Resolved { new_balance, .. } => Some(UserData { balance: new_balance, last_pact: now }),
        _ => None,
    }
}

/// What a wager reports once its write has been tried: a resolved wager
/// whose write failed is a `PersistenceError`, never a success.
pub fn pact_committed(outcome: PactOutcome, write_ok: bool) -> (r: PactOutcome)
    ensures
        r == if outcome is Resolved && !write_ok {
            PactOutcome::PersistenceError
        } else {
            outcome
        },
{
    if let PactOutcome::Resolved { .. } = outcome {
        if !write_ok {
            return PactOutcome::PersistenceError;
        }
    }
    outcome
}

/// Which of the two accounts of a transfer a write is for.
#[derive(Clone, Copy, Debug, PartialEq, Eq, Structural)]
pub enum Party {
    Sender,
    Recipient,
}

/// What the caller does next in a transfer.
#[derive(Clone, Copy, Debug, PartialEq, Eq, Structural)]
pub enum PayStep {
    /// Write `record` as the record of `party`, then report whether that
    /// succeeded.
    Write { party: Party, record: UserData },
    /// The transfer is over, with this outcome.
    Finish { outcome: PayOutcome },
}

/// How far a transfer's writes have gone.
#[derive(Clone, Copy, Debug, PartialEq, Eq, Structural)]
pub enum PayStage {
    /// The sender's debit is being written.
    Debit,
    /// The recipient's credit is being written.
    Credit,
    /// The sender's record from before the debit is being written back.
    Restore,
    Done,
}

/// A transfer between two records of durable storage, written sender first.
#[derive(Clone, Copy, Debug, PartialEq, Eq, Structural)]
pub struct PayCommit {
    pub amount: i64,
    pub sender_before: UserData,
    pub sender_after: UserData,
    pub recipient_after: UserData,
    pub stage: PayStage,
}

impl PayCommit {
    /// The outcome that a transfer whose writes all succeeded reports.
    pub open spec fn success(self) -> PayOutcome {
        PayOutcome::Transferred {
            new_sender_balance: self.sender_after.balance,
            new_recipient_balance: self.recipient_after.balance,
        }
    }

    /// Checks a transfer of `amount` between two accounts, given whether
    /// their identifiers are equal and their records (`None` where unbound).
    /// A rejected transfer finishes at once; an accepted one starts with the
    /// sender's debit.
    pub fn begin(
        same_account: bool,
        amount: i64,
        sender: Option<UserData>,
        recipient: Option<UserData>,
    ) -> (r: (PayCommit, PayStep))
        ensures
            match pay_decision(same_account, amount, sender, recipient) {
                PayOutcome::Transferred { new_sender_balance, new_recipient_balance } => {
                    &&& r.0.stage == PayStage::Debit
                    &&& r.0.amount == amount
                    &&& amount > 0
                    &&& r.0.sender_before == sender.unwrap()
                    &&& r.0.sender_after == (UserData {
                        balance: new_sender_balance,
                        last_pact: sender.unwrap().last_pact,
                    })
                    &&& r.0.recipient_after == (UserData {
                        balance: new_recipient_balance,
                        last_pact: recipient.unwrap().last_pact,
                    })
                    &&& r.1 == (PayStep::Write { party: Party::Sender, record: r.0.sender_after })
                },
                rejected => r.0.stage == PayStage::Done && r.1 == (PayStep::Finish { outcome: rejected }),
            },
    {
        let checked = check_pay(same_account, amount, sender, recipient);
        match checked {
            PayOutcome::Transferred { new_sender_balance, new_recipient_balance } => {
                let s = sender.unwrap();
                let t = recipient.unwrap();
                let commit = PayCommit {
                    amount,
                    sender_before: s,
                    sender_after: UserData { balance: new_sender_balance, last_pact: s.last_pact },
                    recipient_after: UserData { balance: new_recipient_balance, last_pact: t.last_pact },
                    stage: PayStage::Debit,
                };
                (commit, PayStep::Write { party: Party::Sender, record: commit.sender_after })
            },
            _ => {
                let unused = UserData { balance: 0, last_pact: 0 };
                let commit = PayCommit {
                    amount,
                    sender_before: unused,
                    sender_after: unused,
                    recipient_after: unused,
                    stage: PayStage::Done,
                };
                (commit, PayStep::Finish { outcome: checked })
            },
        }
    }

    /// Takes the result of the write that the last step asked for and
    /// decides the next step. A failed debit aborts with nothing changed; a
    /// failed credit writes the sender's earlier record back; a failed
    /// write-back leaves the accounts for an operator to reconcile.
    pub fn on_write(&mut self, write_ok: bool) -> (r: PayStep)
        requires
            old(self).stage != PayStage::Done,
            old(self).amount > 0,
        ensures
            final(self).amount == old(self).amount,
            final(self).sender_before == old(self).sender_before,
            final(self).sender_after == old(self).sender_after,
            final(self).recipient_after == old(self).recipient_after,
            match old(self).stage {
                PayStage::Debit => if write_ok {
                    final(self).stage == PayStage::Credit && r == (PayStep::Write {
                        party: Party::Recipient,
                        record: old(self).recipient_after,
                    })
                } else {
                    final(self).stage == PayStage::Done && r == (PayStep::Finish {
                        outcome: PayOutcome::PersistenceError,
                    })
                },
                PayStage::Credit => if write_ok {
                    final(self).stage == PayStage::Done && r == (PayStep::Finish { outcome: old(self).success() })
                } else {
                    final(self).stage == PayStage::Restore && r == (PayStep::Write {
                        party: Party::Sender,
                        record: old(self).sender_before,
                    })
                },
                _ => final(self).stage == PayStage::Done && r == if write_ok {
                    PayStep::Finish { outcome: PayOutcome::PersistenceError }
                } else {
                    PayStep::Finish {
                        outcome: PayOutcome::ReconciliationRequired {
                            sender_delta: (-old(self).amount) as i64,
                            recipient_delta: old(self).amount,
                        },
                    }
                },
            },
    {
        match self.stage {
            PayStage::Debit => {
                if write_ok {
                    self.stage = PayStage::Credit;
                    PayStep::Write { party: Party::Recipient, record: self.recipient_after }
                } else {
                    self.stage = PayStage::Done;
                    PayStep::Finish { outcome: PayOutcome::PersistenceError }
                }
            },
            PayStage::Credit => {
                if write_ok {
                    self.stage = PayStage::Done;
                    PayStep::Finish {
                        outcome: PayOutcome::Transferred {
                            new_sender_balance: self.sender_after.balance,
                            new_recipient_balance: self.recipient_after.balance,
                        },
                    }
                } else {
                    self.stage = PayStage::Restore;
                    PayStep::Write { party: Party::Sender, record: self.sender_before }
                }
            },
            _ => {
                self.stage = PayStage::Done;
                if write_ok {
                    PayStep::Finish { outcome: PayOutcome::PersistenceError }
                } else {
                    PayStep::Finish {
                        outcome: PayOutcome::ReconciliationRequired {
                            sender_delta: -self.amount,
                            recipient_delta: self.amount,
                        },
                    }
                }
            },
        }
    }
}

} // verus!
