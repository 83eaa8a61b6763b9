//! The random draws behind a wager: a win/loss coin weighted 45 in 100, and a
//! percentage drawn uniformly from 7 to 32.
use vstd::prelude::*;
use rand::Rng;

verus! {

/// Out of every hundred rolls, how many are wins.
pub const WIN_CHANCE_PERCENT: u32 = 45;

/// Smallest percentage of the stake that a wager gains or loses.
pub const MIN_PCT: u32 = 7;

/// Largest percentage of the stake that a wager gains or loses.
pub const MAX_PCT: u32 = 32;

/// The result of the draws for one wager.
#[derive(Clone, Copy, Debug, PartialEq, Eq, Structural)]
pub struct Draw {
    pub win: bool,
    pub pct: u32,
}

impl Draw {
    /// The percentage lies in the range that the generator draws from.
    pub open spec fn is_valid(self) -> bool {
        MIN_PCT <= self.pct <= MAX_PCT
    }

    /// The draw for a roll out of a hundred (`roll` below 45 wins) and a
    /// percentage.
    pub fn from_roll(roll: u32, pct: u32) -> (r: Draw)
        ensures
            r.win == (roll < WIN_CHANCE_PERCENT),
            r.pct == pct,
    {
        Draw { win: roll < WIN_CHANCE_PERCENT, pct }
    }
}

/// Relies on rand 0.8's `thread_rng` and `Rng::gen_range`, which returns a
/// value of the half-open range `lo..hi` and panics when it is empty.
#[verifier::external_body]
fn random_in_range(lo: u32, hi: u32) -> (r: u32)
    requires
        lo < hi,
    ensures
        lo <= r < hi,
{
    rand::thread_rng().gen_range(lo..hi)
}

/// Draws a wager's outcome: a roll out of a hundred for win or loss, then,
/// independently, the percentage.
pub fn draw_outcome() -> (r: Draw)
    ensures
        r.is_valid(),
{
    let roll: u32 = random_in_range(0, 100);
    let pct: u32 = random_in_range(MIN_PCT, MAX_PCT + 1);
    Draw::from_roll(roll, pct)
}

} // verus!
