//! Instants on a monotonic clock, written as nanoseconds since a fixed origin.

use vstd::prelude::*;

verus! {

/// How long a timer thread started at `now` has to sleep before its deadline
/// `when` has passed: `None` when the deadline is already reached, so the
/// thread wakes its task at once.
pub fn timer_sleep(now: u64, when: u64) -> (sleep: Option<u64>)
    ensures
        now < when ==> sleep == Some((when - now) as u64),
        now >= when ==> sleep is None,
{
    if now < when {
        Some(when - now)
    } else {
        None
    }
}

} // verus!
