use async_primer::executor::{MiniTokio, Task};

#[test]
fn new_executor_has_nothing_to_run() {
    let mut e: MiniTokio<&str> = MiniTokio::new();
    assert!(e.next_scheduled().is_none());
}

#[test]
fn spawn_numbers_tasks_and_queues_them() {
    let mut e = MiniTokio::new();
    let a = e.spawn("a");
    let b = e.spawn("b");
    assert_eq!(a.id(), 0);
    assert_eq!(b.id(), 1);
    assert_eq!(e.next_scheduled().map(|t| t.id()), Some(0));
    assert_eq!(e.next_scheduled().map(|t| t.id()), Some(1));
    assert!(e.next_scheduled().is_none());
}

#[test]
fn wakes_run_in_order_after_earlier_work() {
    let mut e = MiniTokio::new();
    let a = e.spawn(10u32);
    let b = Task::spawn(20u32, &mut e);
    Task::wake_by_ref(&b, &mut e);
    a.schedule(&mut e);
    let order: Vec<usize> = std::iter::from_fn(|| e.next_scheduled().map(|t| t.id())).collect();
    assert_eq!(order, vec![0, 1, 1, 0]);
}

#[test]
fn checkout_and_checkin_of_a_future() {
    let mut e = MiniTokio::new();
    let t = e.spawn(String::from("future"));
    assert!(e.is_idle(&t));
    let f = e.checkout(&t);
    assert_eq!(f, "future");
    assert!(!e.is_idle(&t));
    e.checkin(&t, f);
    assert!(e.is_idle(&t));
    assert_eq!(e.checkout(&t), "future");
}
