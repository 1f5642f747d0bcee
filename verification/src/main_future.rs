//! The state machine that an `async` main function with one `.await` on a
//! delay turns into.
//!
//! Each call of [`MainFuture::step`] is one turn of the loop inside the
//! future's `poll`: the caller reads the clock, hands the reading in, and
//! either loops again, completes, or returns pending after arming the timer.

use vstd::prelude::*;
use crate::delay::{SimpleDelay, SimpleDelayPoll, DELAY_OUTPUT};

verus! {

/// How long the main future waits, in nanoseconds (ten milliseconds).
pub const MAIN_DELAY_NANOS: u64 = 10_000_000;

/// The states of the main future.
#[derive(Debug, Clone, Copy, PartialEq, Eq)]
pub enum MainFuture {
    /// Created but not yet polled.
    State0,
    /// Waiting for the inner delay (the `.await` point).
    State1(SimpleDelay),
    /// Completed; must not be polled again.
    Terminated,
}

/// What one turn of the poll loop tells the caller.
#[derive(Debug, Clone, Copy, PartialEq, Eq)]
pub enum MainStep {
    /// The state changed without an answer yet: run the next turn.
    Continue,
    /// The future completed (`Poll::Ready(())`).
    Ready,
    /// The inner delay is pending: arm a timer that wakes the task at
    /// instant `wake_at`, then answer `Poll::Pending`.
    Pending { wake_at: u64 },
}

/// The state after one turn at instant `now`, and what the turn tells.
pub open spec fn main_step_spec(s: MainFuture, now: u64) -> (MainFuture, MainStep) {
    match s {
        MainFuture::State0 => (
            MainFuture::State1(SimpleDelay { when: (now + MAIN_DELAY_NANOS) as u64 }),
            MainStep::Continue,
        ),
        MainFuture::State1(d) => match d.poll_spec(now) {
            SimpleDelayPoll::Ready(_) => (MainFuture::Terminated, MainStep::Ready),
            SimpleDelayPoll::Pending { wake_at } => (s, MainStep::Pending { wake_at }),
        },
        MainFuture::Terminated => (s, MainStep::Continue),
    }
}

impl MainFuture {
    /// A main future that has not been polled yet.
    pub fn new() -> (s: MainFuture)
        ensures
            s == MainFuture::State0,
    {
        MainFuture::State0
    }

    /// Whether the future has completed.
    pub fn is_terminated(&self) -> (b: bool)
        ensures
            b == (*self is Terminated),
    {
        match self {
            MainFuture::Terminated => true,
            _ => false,
        }
    }

    /// One turn of the poll loop at instant `now`. In the initial state the
    /// delay is created with its deadline ten milliseconds after `now`; while
    /// waiting, the delay is polled, and once it yields `"done"` the future
    /// completes. A completed future must not be polled again (the caller
    /// panics, as `poll` after completion does).
    pub fn step(&mut self, now: u64) -> (r: MainStep)
        requires
            !(*old(self) is Terminated),
            *old(self) is State0 ==> now + MAIN_DELAY_NANOS <= u64::MAX,
        ensures
            (*final(self), r) == main_step_spec(*old(self), now),
    {
        match *self {
            MainFuture::State0 => {
                let future = SimpleDelay::new(now + MAIN_DELAY_NANOS);
                *self = MainFuture::State1(future);
                MainStep::Continue
            },
            MainFuture::State1(my_future) => {
                match my_future.poll(now) {
                    SimpleDelayPoll::Ready(out) => {
                        assert(out == DELAY_OUTPUT);
                        *self = MainFuture::Terminated;
                        MainStep::Ready
                    },
                    SimpleDelayPoll::Pending { wake_at } => MainStep::Pending { wake_at },
                }
            },
            MainFuture::Terminated => MainStep::Continue,
        }
    }
}

/// One poll of the main future runs at most two turns: a fresh future always
/// moves on to waiting (with the deadline ten milliseconds after the clock
/// reading), and a waiting future always answers. The future completes
/// exactly when the clock reading has reached the deadline, and then it is
/// terminated, so it never completes twice.
pub proof fn lemma_main_future_poll_shape(s: MainFuture, now: u64, later: u64)
    requires
        !(s is Terminated),
        now + MAIN_DELAY_NANOS <= u64::MAX,
    ensures
        s is State0 ==> main_step_spec(s, now).1 == MainStep::Continue,
        s is State0 ==> main_step_spec(s, now).0 == MainFuture::State1(SimpleDelay { when: (now + MAIN_DELAY_NANOS) as u64 }),
        s is State0 ==> main_step_spec(main_step_spec(s, now).0, later).1 != MainStep::Continue,
        s is State1 ==> main_step_spec(s, now).1 != MainStep::Continue,
        s is State1 ==> (main_step_spec(s, now).1 == MainStep::Ready <==> now >= s->0.when),
        main_step_spec(s, now).1 == MainStep::Ready ==> main_step_spec(s, now).0 == MainFuture::Terminated,
        main_step_spec(s, now).1 is Pending ==> main_step_spec(s, now).0 == s,
{
}

/// What one turn does, at every instant: a fresh future creates its delay
/// with the deadline ten milliseconds after the reading and runs another
/// turn; a waiting future before its deadline stays waiting and arms the
/// timer for the delay's own deadline; at or after the deadline it completes
/// and is terminated.
pub proof fn lemma_main_step_answers(d: SimpleDelay, now: u64)
    requires
        now + MAIN_DELAY_NANOS <= u64::MAX,
    ensures
        main_step_spec(MainFuture::State0, now) == (
            MainFuture::State1(SimpleDelay { when: (now + MAIN_DELAY_NANOS) as u64 }),
            MainStep::Continue,
        ),
        now < d.when ==> main_step_spec(MainFuture::State1(d), now) == (
            MainFuture::State1(d),
            MainStep::Pending { wake_at: d.when },
        ),
        now >= d.when ==> main_step_spec(MainFuture::State1(d), now) == (MainFuture::Terminated, MainStep::Ready),
{
}

} // verus!
