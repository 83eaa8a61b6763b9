//! A small user-balance ledger: accounts bound to an opaque identifier, a
//! randomized wager gated by a cooldown, and transfers between accounts.
//!
//! Amounts are kept as whole hundredths of a coin (`i64`), so that every
//! balance change is exact integer arithmetic.
use vstd::prelude::*;

pub mod account;
pub mod balance;
pub mod commit;
pub mod cooldown;
pub mod laws;
pub mod ledger;
pub mod locking;
pub mod outcome;
pub mod store;
pub mod tickets;

verus! {

} // verus!
