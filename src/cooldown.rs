//! The time window that gates the wager operation.
use vstd::prelude::*;

verus! {

/// Seconds that must pass between two validated wagers on one account.
pub const PACT_COOLDOWN: u64 = 86400;

/// Seconds elapsed from `last` to `now`; zero when the clock reads earlier
/// than `last`.
pub open spec fn elapsed(now: u64, last: u64) -> int {
    if now >= last {
        now - last
    } else {
        0
    }
}

/// What is left of a window of `window` seconds that opened at `last`.
pub open spec fn remaining_spec(now: u64, last: u64, window: u64) -> Option<u64> {
    if elapsed(now, last) >= window {
        None
    } else {
        Some((window - elapsed(now, last)) as u64)
    }
}

/// Seconds left before the window of `window` seconds that opened at `last`
/// closes, or `None` when it has closed by `now`.
pub fn remaining(now: u64, last: u64, window: u64) -> (r: Option<u64>)
    ensures
        r == remaining_spec(now, last, window),
        r matches Some(s) ==> 0 < s <= window,
{
    let gone: u64 = now.saturating_sub(last);
    if gone >= window {
        None
    } else {
        Some(window - gone)
    }
}

/// A duration split into hours, minutes and seconds.
#[derive(Clone, Copy, Debug, PartialEq, Eq, Structural)]
pub struct Hms {
    pub hours: u64,
    pub minutes: u64,
    pub seconds: u64,
}

impl Hms {
    /// The number of seconds this duration stands for.
    pub open spec fn total(self) -> int {
        self.hours * 3600 + self.minutes * 60 + self.seconds
    }

    /// Splits `secs` into whole hours, the minutes left over, and the seconds
    /// left over.
    pub fn from_secs(secs: u64) -> (r: Hms)
        ensures
            r.hours == secs / 3600,
            r.minutes == (secs % 3600) / 60,
            r.seconds == secs % 60,
            r.minutes < 60,
            r.seconds < 60,
            r.total() == secs,
    {
        let r = Hms { hours: secs / 3600, minutes: (secs % 3600) / 60, seconds: secs % 60 };
        assert(r.total() == secs) by (nonlinear_arith)
            requires
                r.hours == secs / 3600,
                r.minutes == (secs % 3600) / 60,
                r.seconds == secs % 60,
        {}
        r
    }
}

} // verus!
