//! Timer futures.
//!
//! A delay future completes once the clock has reached its deadline. While it
//! is not complete it must make sure that somebody wakes the polling task when
//! the deadline passes. [`SimpleDelay`] arms a fresh timer thread on every
//! pending poll; [`Delay`] arms one timer thread on the first poll and from
//! then on only keeps the stored waker in line with the task that polls it.

use vstd::prelude::*;

verus! {

/// The value a delay future produces when it completes.
pub const DELAY_OUTPUT: &'static str = "done";

/// Outcome of polling a [`SimpleDelay`].
#[derive(Debug, PartialEq, Eq)]
pub enum SimpleDelayPoll {
    /// The deadline has passed; the future yields its output.
    Ready(&'static str),
    /// The deadline lies ahead: clone the task's waker and start a timer
    /// thread that wakes it at instant `wake_at`.
    Pending { wake_at: u64 },
}

/// A delay future that arms a new timer thread each time it is polled early.
#[derive(Debug, Clone, Copy, PartialEq, Eq)]
pub struct SimpleDelay {
    pub when: u64,
}

impl SimpleDelay {
    /// What polling the delay at instant `now` yields.
    pub open spec fn poll_spec(self, now: u64) -> SimpleDelayPoll {
        if now >= self.when {
            SimpleDelayPoll::Ready(DELAY_OUTPUT)
        } else {
            SimpleDelayPoll::Pending { wake_at: self.when }
        }
    }

    /// A delay that completes at instant `when`.
    pub fn new(when: u64) -> (d: SimpleDelay)
        ensures
            d.when == when,
    {
        SimpleDelay { when }
    }

    /// Polls the delay at instant `now`: ready with the output `"done"` once
    /// `now` has reached the deadline, otherwise pending with a timer armed
    /// for the deadline.
    pub fn poll(&self, now: u64) -> (r: SimpleDelayPoll)
        ensures
            r == self.poll_spec(now),
    {
        if now >= self.when {
            SimpleDelayPoll::Ready(DELAY_OUTPUT)
        } else {
            SimpleDelayPoll::Pending { wake_at: self.when }
        }
    }
}

/// What a poll of [`Delay`] asks the caller to do with the task's waker.
#[derive(Debug, Clone, Copy, PartialEq, Eq)]
pub enum WakerAction {
    /// First poll: store a clone of the current waker and start the one timer
    /// thread, which wakes the stored waker at instant `wake_at`.
    StoreAndSpawnTimer { wake_at: u64 },
    /// The stored waker would not wake the current task (the future moved to
    /// another task): replace it by a clone of the current waker.
    ReplaceStored,
    /// The stored waker already wakes the current task.
    KeepStored,
}

/// Outcome of polling a [`Delay`].
#[derive(Debug, Clone, Copy, PartialEq, Eq)]
pub struct DelayPoll {
    /// What to do with the waker before answering.
    pub waker: WakerAction,
    /// Whether the future is complete (`Poll::Ready`) or not (`Poll::Pending`).
    pub ready: bool,
}

/// A delay future that starts at most one timer thread and keeps the waker
/// that thread will call in line with the task that polled it last.
#[derive(Debug, Clone, Copy, PartialEq, Eq)]
pub struct Delay {
    pub when: u64,
    /// Whether a waker is stored, that is, whether the timer thread runs.
    pub armed: bool,
}

/// The state after polling `d` at `now`, where `matches` tells whether the
/// stored waker would wake the polling task, and what the poll returns.
pub open spec fn delay_poll_spec(d: Delay, now: u64, matches: bool) -> (Delay, DelayPoll) {
    let waker = if !d.armed {
        WakerAction::StoreAndSpawnTimer { wake_at: d.when }
    } else if matches {
        WakerAction::KeepStored
    } else {
        WakerAction::ReplaceStored
    };
    (Delay { when: d.when, armed: true }, DelayPoll { waker, ready: now >= d.when })
}

impl Delay {
    /// A delay with deadline `when` that has not been polled yet.
    pub fn new(when: u64) -> (d: Delay)
        ensures
            d == (Delay { when, armed: false }),
    {
        Delay { when, armed: false }
    }

    /// Polls the delay at instant `now`; `stored_waker_matches` is whether the
    /// stored waker (if any) would wake the task that polls now.
    pub fn poll(&mut self, now: u64, stored_waker_matches: bool) -> (r: DelayPoll)
        ensures
            (*final(self), r) == delay_poll_spec(*old(self), now, stored_waker_matches),
    {
        let waker = if !self.armed {
            WakerAction::StoreAndSpawnTimer { wake_at: self.when }
        } else if stored_waker_matches {
            WakerAction::KeepStored
        } else {
            WakerAction::ReplaceStored
        };
        self.armed = true;
        DelayPoll { waker, ready: now >= self.when }
    }
}

/// The state after a sequence of polls of `d`, each given as the instant of
/// the poll and whether the stored waker matched the polling task, and what
/// each poll returned.
pub open spec fn delay_run(d: Delay, polls: Seq<(u64, bool)>) -> (Delay, Seq<DelayPoll>)
    decreases polls.len(),
{
    if polls.len() == 0 {
        (d, Seq::empty())
    } else {
        let (next, r) = delay_poll_spec(d, polls[0].0, polls[0].1);
        let (last, rs) = delay_run(next, polls.drop_first());
        (last, seq![r] + rs)
    }
}

/// How many of the answers `rs` start a timer thread.
pub open spec fn timers_started(rs: Seq<DelayPoll>) -> nat
    decreases rs.len(),
{
    if rs.len() == 0 {
        0
    } else {
        (if rs[0].waker is StoreAndSpawnTimer { 1nat } else { 0nat }) + timers_started(rs.drop_first())
    }
}

/// However often a delay is polled, and by whichever tasks, it starts exactly
/// one timer thread if it had none (and was polled at all), and none if it
/// already had one; every poll answers ready exactly when its instant has
/// reached the deadline; and after any poll a timer is running.
pub proof fn lemma_delay_single_timer(d: Delay, polls: Seq<(u64, bool)>)
    ensures
        delay_run(d, polls).1.len() == polls.len(),
        timers_started(delay_run(d, polls).1) == (if polls.len() > 0 && !d.armed { 1nat } else { 0nat }),
        forall|i: int| 0 <= i < polls.len() ==> (#[trigger] delay_run(d, polls).1[i]).ready == (polls[i].0 >= d.when),
        delay_run(d, polls).0.when == d.when,
        delay_run(d, polls).0.armed == (d.armed || polls.len() > 0),
    decreases polls.len(),
{
    if polls.len() > 0 {
        let (next, r) = delay_poll_spec(d, polls[0].0, polls[0].1);
        lemma_delay_single_timer(next, polls.drop_first());
        let rs = delay_run(d, polls).1;
        let tail = delay_run(next, polls.drop_first()).1;
        assert(rs == seq![r] + tail);
        assert(rs.drop_first() =~= tail);
        assert forall|i: int| 0 <= i < polls.len() implies (#[trigger] rs[i]).ready == (polls[i].0 >= d.when) by {
            if i > 0 {
                assert(rs[i] == tail[i - 1]);
                assert(polls.drop_first()[i - 1] == polls[i]);
            }
        }
    }
}

/// Once a simple delay is ready it stays ready at every later instant, and an
/// early poll always arms a timer for the deadline itself.
pub proof fn lemma_simple_delay_monotone(d: SimpleDelay, now: u64, later: u64)
    requires
        now <= later,
    ensures
        d.poll_spec(now) is Ready ==> d.poll_spec(later) == SimpleDelayPoll::Ready(DELAY_OUTPUT),
        d.poll_spec(now) is Pending ==> d.poll_spec(now) == (SimpleDelayPoll::Pending { wake_at: d.when }),
{
}

/// A simple delay answers by the clock alone: at or after its deadline it is
/// ready with the output `"done"`; before it, it is pending with a timer
/// armed for the deadline itself.
pub proof fn lemma_simple_delay_answers(d: SimpleDelay, now: u64)
    ensures
        now >= d.when ==> d.poll_spec(now) == SimpleDelayPoll::Ready(DELAY_OUTPUT),
        now < d.when ==> d.poll_spec(now) == (SimpleDelayPoll::Pending { wake_at: d.when }),
        (d.poll_spec(now) is Ready) <==> now >= d.when,
        DELAY_OUTPUT@ == "done"@,
{
    reveal_strlit("done");
}

/// The waker rules of a delay, at every instant: the first poll stores the
/// waker and starts the timer for the deadline; every later poll replaces a
/// stored waker that would not wake the polling task and keeps one that
/// would, however far the deadline is; every poll is ready exactly when its
/// instant has reached the deadline, and leaves the delay armed with the same
/// deadline.
pub proof fn lemma_delay_waker_rules(d: Delay, now: u64, matches: bool)
    ensures
        !d.armed ==> delay_poll_spec(d, now, matches).1.waker == (WakerAction::StoreAndSpawnTimer { wake_at: d.when }),
        d.armed && matches ==> delay_poll_spec(d, now, matches).1.waker == WakerAction::KeepStored,
        d.armed && !matches ==> delay_poll_spec(d, now, matches).1.waker == WakerAction::ReplaceStored,
        delay_poll_spec(d, now, matches).1.ready == (now >= d.when),
        delay_poll_spec(d, now, matches).0 == (Delay { when: d.when, armed: true }),
{
}

} // verus!
