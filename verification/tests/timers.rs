use async_primer::clock::timer_sleep;
use async_primer::delay::{Delay, DelayPoll, SimpleDelay, SimpleDelayPoll, WakerAction, DELAY_OUTPUT};
use async_primer::main_future::{MainFuture, MainStep, MAIN_DELAY_NANOS};

#[test]
fn timer_sleeps_until_deadline() {
    assert_eq!(timer_sleep(100, 250), Some(150));
    assert_eq!(timer_sleep(0, 1), Some(1));
}

#[test]
fn timer_does_not_sleep_past_deadline() {
    assert_eq!(timer_sleep(250, 250), None);
    assert_eq!(timer_sleep(300, 250), None);
}

#[test]
fn simple_delay_ready_at_deadline() {
    let d = SimpleDelay::new(1_000);
    assert_eq!(d.poll(1_000), SimpleDelayPoll::Ready("done"));
    assert_eq!(d.poll(5_000), SimpleDelayPoll::Ready("done"));
    assert_eq!(DELAY_OUTPUT, "done");
}

#[test]
fn simple_delay_pending_arms_timer_for_deadline() {
    let d = SimpleDelay::new(1_000);
    assert_eq!(d.poll(0), SimpleDelayPoll::Pending { wake_at: 1_000 });
    assert_eq!(d.poll(999), SimpleDelayPoll::Pending { wake_at: 1_000 });
}

#[test]
fn delay_first_poll_starts_the_one_timer() {
    let mut d = Delay::new(500);
    assert!(!d.armed);
    let r = d.poll(100, false);
    assert_eq!(r, DelayPoll { waker: WakerAction::StoreAndSpawnTimer { wake_at: 500 }, ready: false });
    assert!(d.armed);
    assert_eq!(d.when, 500);
}

#[test]
fn delay_later_polls_only_adjust_the_waker() {
    let mut d = Delay::new(500);
    d.poll(100, true);
    // Polled again by the same task.
    assert_eq!(d.poll(200, true), DelayPoll { waker: WakerAction::KeepStored, ready: false });
    // Moved to another task.
    assert_eq!(d.poll(300, false), DelayPoll { waker: WakerAction::ReplaceStored, ready: false });
    // Deadline reached.
    assert_eq!(d.poll(500, true), DelayPoll { waker: WakerAction::KeepStored, ready: true });
}

#[test]
fn delay_polled_after_deadline_on_first_poll() {
    let mut d = Delay::new(10);
    assert_eq!(d.poll(20, false), DelayPoll { waker: WakerAction::StoreAndSpawnTimer { wake_at: 10 }, ready: true });
}

#[test]
fn delay_many_polls_start_one_timer() {
    let mut d = Delay::new(1_000);
    let mut started = 0;
    for (i, t) in [0u64, 100, 200, 999, 1_000, 2_000].iter().enumerate() {
        let r = d.poll(*t, i % 2 == 0);
        if let WakerAction::StoreAndSpawnTimer { .. } = r.waker {
            started += 1;
        }
        assert_eq!(r.ready, *t >= 1_000);
    }
    assert_eq!(started, 1);
}

#[test]
fn main_future_runs_through_its_states() {
    let mut f = MainFuture::new();
    assert_eq!(f, MainFuture::State0);
    assert!(!f.is_terminated());
    assert_eq!(f.step(1_000), MainStep::Continue);
    assert_eq!(f, MainFuture::State1(SimpleDelay { when: 1_000 + MAIN_DELAY_NANOS }));
    assert_eq!(f.step(1_000), MainStep::Pending { wake_at: 1_000 + MAIN_DELAY_NANOS });
    assert_eq!(f.step(1_000 + MAIN_DELAY_NANOS - 1), MainStep::Pending { wake_at: 1_000 + MAIN_DELAY_NANOS });
    assert_eq!(f.step(1_000 + MAIN_DELAY_NANOS), MainStep::Ready);
    assert_eq!(f, MainFuture::Terminated);
    assert!(f.is_terminated());
}

#[test]
fn main_future_delay_is_ten_milliseconds() {
    assert_eq!(MAIN_DELAY_NANOS, 10_000_000);
    let mut f = MainFuture::new();
    f.step(5);
    assert_eq!(f, MainFuture::State1(SimpleDelay { when: 10_000_005 }));
}
