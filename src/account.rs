//! The persisted record of one account.
use vstd::prelude::*;

verus! {

/// One account's persisted state.
///
/// `balance` is in hundredths of a coin and may be negative; `last_pact` is
/// the epoch second of the latest wager that passed validation.
#[derive(Clone, Copy, Debug, PartialEq, Eq, Structural)]
pub struct UserData {
    pub balance: i64,
    pub last_pact: u64,
}

/// The record of a freshly bound account.
pub open spec fn fresh_account() -> UserData {
    UserData { balance: 0, last_pact: 0 }
}

impl Default for UserData {
    fn default() -> (r: UserData)
        ensures
            r == fresh_account(),
    {
        UserData { balance: 0, last_pact: 0 }
    }
}

} // verus!
