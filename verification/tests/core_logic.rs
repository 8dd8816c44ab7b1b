use async_basics::fibonacci::fibonacci;
use async_basics::file_watch::FileWatch;
use async_basics::pinning::SelfReferential;
use async_basics::poll_state::PollState;
use async_basics::shared_counter::{CounterFuture, CounterType, SharedData};

#[test]
fn fibonacci_small_values() {
    assert_eq!(fibonacci(0), 0);
    assert_eq!(fibonacci(1), 1);
    assert_eq!(fibonacci(2), 1);
    assert_eq!(fibonacci(10), 55);
    assert_eq!(fibonacci(20), 6765);
}

#[test]
fn fibonacci_near_the_top() {
    assert_eq!(fibonacci(30), 832040);
}

#[test]
fn shared_data_steps() {
    let mut d = SharedData { counter: 0 };
    d.increment();
    d.increment();
    assert_eq!(d.counter, 2);
    d.decrement();
    assert_eq!(d.counter, 1);
    d.apply(CounterType::Decrement);
    d.apply(CounterType::Decrement);
    assert_eq!(d.counter, -1);
}

#[test]
fn decrement_undoes_increment() {
    let mut d = SharedData { counter: 41 };
    d.increment();
    d.decrement();
    assert_eq!(d.counter, 41);
}

#[test]
fn counter_future_ready_on_third_locked_poll() {
    let mut data = SharedData { counter: 0 };
    let mut f = CounterFuture::new(CounterType::Increment);
    assert_eq!(f.poll_locked(&mut data), PollState::Pending);
    assert_eq!(f.poll_contended(), PollState::Pending);
    assert_eq!(f.count, 1);
    assert_eq!(f.poll_locked(&mut data), PollState::Pending);
    assert_eq!(f.poll_locked(&mut data), PollState::Ready(3));
    assert_eq!(data.counter, 3);
}

#[test]
fn interleaved_counter_futures_restore_counter() {
    let mut data = SharedData { counter: 0 };
    let mut up = CounterFuture::new(CounterType::Increment);
    let mut down = CounterFuture::new(CounterType::Decrement);
    up.poll_locked(&mut data);
    up.poll_locked(&mut data);
    down.poll_locked(&mut data);
    assert_eq!(up.poll_locked(&mut data), PollState::Ready(3));
    down.poll_locked(&mut data);
    assert_eq!(down.poll_locked(&mut data), PollState::Ready(3));
    assert_eq!(data.counter, 0);
}

#[test]
fn file_watch_signals_changes_only() {
    let mut w = FileWatch::new();
    assert!(!w.observe(None));
    assert_eq!(w.last_modified, None);
    assert!(w.observe(Some(100)));
    assert!(!w.observe(Some(100)));
    assert!(!w.observe(None));
    assert_eq!(w.last_modified, Some(100));
    assert!(w.observe(Some(-5)));
    assert_eq!(w.last_modified, Some(-5));
    assert!(w.observe(Some(100)));
}

#[test]
fn self_referential_points_at_own_data() {
    let first = SelfReferential::new("first".to_string());
    let mut second = SelfReferential::new("second".to_string());
    let mut moved = first;
    std::mem::swap(&mut moved, &mut second);
    assert_eq!(moved.self_pointer(), "second");
    assert_eq!(second.self_pointer(), "first");
}
