use pact_ledger::account::UserData;
use pact_ledger::commit::{bind_committed, pact_committed, pact_write, Party, PayCommit, PayStage, PayStep};
use pact_ledger::ledger::{BindOutcome, PactOutcome, PayOutcome, Resolution};
use pact_ledger::locking::locks_first;

fn alice() -> UserData {
    UserData { balance: 50_00, last_pact: 9 }
}

fn bob() -> UserData {
    UserData { balance: 1_00, last_pact: 3 }
}

fn started() -> PayCommit {
    let (commit, step) = PayCommit::begin(false, 20_00, Some(alice()), Some(bob()));
    assert_eq!(commit.stage, PayStage::Debit);
    assert_eq!(
        step,
        PayStep::Write { party: Party::Sender, record: UserData { balance: 30_00, last_pact: 9 } }
    );
    commit
}

#[test]
fn transfer_with_both_writes_succeeding() {
    let mut commit = started();
    assert_eq!(
        commit.on_write(true),
        PayStep::Write { party: Party::Recipient, record: UserData { balance: 21_00, last_pact: 3 } }
    );
    assert_eq!(
        commit.on_write(true),
        PayStep::Finish {
            outcome: PayOutcome::Transferred { new_sender_balance: 30_00, new_recipient_balance: 21_00 }
        }
    );
    assert_eq!(commit.stage, PayStage::Done);
}

#[test]
fn failed_debit_aborts() {
    let mut commit = started();
    assert_eq!(commit.on_write(false), PayStep::Finish { outcome: PayOutcome::PersistenceError });
    assert_eq!(commit.stage, PayStage::Done);
}

#[test]
fn failed_credit_restores_sender() {
    let mut commit = started();
    commit.on_write(true);
    assert_eq!(commit.on_write(false), PayStep::Write { party: Party::Sender, record: alice() });
    assert_eq!(commit.on_write(true), PayStep::Finish { outcome: PayOutcome::PersistenceError });
}

#[test]
fn failed_restore_needs_reconciliation() {
    let mut commit = started();
    commit.on_write(true);
    commit.on_write(false);
    assert_eq!(
        commit.on_write(false),
        PayStep::Finish {
            outcome: PayOutcome::ReconciliationRequired { sender_delta: -20_00, recipient_delta: 20_00 }
        }
    );
}

#[test]
fn rejected_transfer_finishes_at_once() {
    let (commit, step) = PayCommit::begin(false, 20_00, Some(alice()), None);
    assert_eq!(commit.stage, PayStage::Done);
    assert_eq!(step, PayStep::Finish { outcome: PayOutcome::RecipientNotBound });
    let (_, step) = PayCommit::begin(true, 20_00, Some(alice()), Some(alice()));
    assert_eq!(step, PayStep::Finish { outcome: PayOutcome::SelfPay });
    let (_, step) = PayCommit::begin(false, 60_00, Some(alice()), Some(bob()));
    assert_eq!(step, PayStep::Finish { outcome: PayOutcome::InsufficientFunds { balance: 50_00 } });
}

#[test]
fn bind_commit_outcomes() {
    assert_eq!(bind_committed(true, false), BindOutcome::AlreadyBound);
    assert_eq!(bind_committed(false, true), BindOutcome::Created);
    assert_eq!(bind_committed(false, false), BindOutcome::PersistenceError);
}

#[test]
fn pact_commit_outcomes() {
    let resolved = PactOutcome::Resolved {
        resolution: Resolution::Win { pct: 10, gained: 5_00 },
        new_balance: 55_00,
    };
    assert_eq!(pact_write(77, resolved), Some(UserData { balance: 55_00, last_pact: 77 }));
    assert_eq!(pact_write(77, PactOutcome::InvalidStake), None);
    assert_eq!(pact_committed(resolved, true), resolved);
    assert_eq!(pact_committed(resolved, false), PactOutcome::PersistenceError);
    assert_eq!(
        pact_committed(PactOutcome::CooldownActive { remaining: 5 }, false),
        PactOutcome::CooldownActive { remaining: 5 }
    );
}

#[test]
fn lock_order_is_by_bytes() {
    assert!(locks_first("alice", "bob"));
    assert!(!locks_first("bob", "alice"));
    assert!(locks_first("al", "alice"));
    assert!(!locks_first("alice", "al"));
    assert!(locks_first("same", "same"));
    assert!(locks_first("", "x"));
    assert!(locks_first("100", "99"));
    assert!(locks_first("Zed", "abe"));
}
