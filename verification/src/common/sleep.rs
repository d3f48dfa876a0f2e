//! Busy-wait sleeping on the `time` counter.
use vstd::prelude::*;
use crate::config::SYS_CLOCK_HZ;

verus! {

/// Ticks of the `time` counter per microsecond.
pub const TICKS_PER_US: u64 = SYS_CLOCK_HZ / 1000000;

/// The value of `time` after which a sleep of `us` microseconds, begun when `time`
/// read `start`, is over.
pub fn usleep_deadline(start: u64, us: u64) -> (r: u64)
    requires
        start + us * TICKS_PER_US <= u64::MAX,
    ensures
        r == start + us * TICKS_PER_US,
{
    start + us * (SYS_CLOCK_HZ / 1000000)
}

/// Whether a sleep that ends after `end_time` is over when `time` reads `now`: only
/// once `now` has passed `end_time`.
pub fn usleep_done(end_time: u64, now: u64) -> (r: bool)
    ensures
        r == (now > end_time),
{
    now > end_time
}

/// The microseconds that `sleep_ns(seconds)` sleeps: a thousand per unit.
pub fn sleep_ns_micros(seconds: u64) -> (r: u64)
    requires
        seconds * 1000 <= u64::MAX,
    ensures
        r == seconds * 1000,
{
    seconds * 1000
}

/// Once a sleep is over it stays over: every later reading of `time` also ends it,
/// and no reading at or before the start of a sleep of at least one microsecond does.
pub proof fn lemma_usleep_done_monotone(start: u64, us: u64, now: u64, later: u64)
    requires
        start + us * TICKS_PER_US <= u64::MAX,
        now <= later,
    ensures
        (now > start + us * TICKS_PER_US) ==> (later > start + us * TICKS_PER_US),
        us >= 1 && now <= start ==> !(now > start + us * TICKS_PER_US),
{
}

} // verus!
