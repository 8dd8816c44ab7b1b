use async_basics::executor::{
    clock_now, elapsed_since, next_task, receiver_for, take_from, AsyncSleep, BackgroundProcess,
    CounterFuture, FutureType, Worker, WorkerAction,
};
use async_basics::poll_state::PollState;
use async_basics::runtime::{parse_worker_count, Runtime};

#[test]
fn runtime_sizing_as_in_main() {
    let r = Runtime::new(8);
    assert_eq!(r.high_num, 6);
    assert_eq!(r.low_num, 1);
    let r = r.with_high_num(2).with_low_num(4);
    assert_eq!(r.high_num, 2);
    assert_eq!(r.low_num, 4);
}

#[test]
fn runtime_on_two_cores() {
    let r = Runtime::new(2);
    assert_eq!(r.high_num, 0);
    assert_eq!(r.low_num, 1);
}

#[test]
fn settings_are_decimal_text() {
    let r = Runtime::new(4).with_high_num(2).with_low_num(40);
    assert_eq!(r.high_num_setting(), "2");
    assert_eq!(r.low_num_setting(), "40");
    let z = Runtime::new(2);
    assert_eq!(z.high_num_setting(), "0");
    let big = z.with_low_num(usize::MAX);
    assert_eq!(big.low_num_setting(), usize::MAX.to_string());
}

#[test]
fn settings_round_trip() {
    for n in [0usize, 1, 9, 10, 99, 100, 12345, usize::MAX] {
        let r = Runtime::new(2).with_high_num(n);
        assert_eq!(parse_worker_count(&r.high_num_setting()), Some(n));
    }
}

#[test]
fn parse_worker_count_accepts_and_refuses() {
    assert_eq!(parse_worker_count("7"), Some(7));
    assert_eq!(parse_worker_count("+7"), Some(7));
    assert_eq!(parse_worker_count("007"), Some(7));
    assert_eq!(parse_worker_count(""), None);
    assert_eq!(parse_worker_count("+"), None);
    assert_eq!(parse_worker_count("-1"), None);
    assert_eq!(parse_worker_count(" 7"), None);
    assert_eq!(parse_worker_count("7a"), None);
    assert_eq!(parse_worker_count("99999999999999999999999"), None);
}

#[test]
fn counter_future_counts_to_three() {
    let mut f = CounterFuture::new();
    assert_eq!(f.poll(), PollState::Pending);
    assert_eq!(f.poll(), PollState::Pending);
    assert_eq!(f.poll(), PollState::Ready(3));
    assert_eq!(f.poll(), PollState::Ready(4));
}

#[test]
fn sleep_poll_at() {
    let s = AsyncSleep::new(1_000);
    assert_eq!(s.duration_nanos, 1_000);
    assert_eq!(s.poll_at(999), PollState::Pending);
    assert_eq!(s.poll_at(1_000), PollState::Ready(true));
    assert_eq!(s.poll_at(5_000), PollState::Ready(true));
}

#[test]
fn zero_sleep_is_ready_at_once() {
    let s = AsyncSleep::new(0);
    assert_eq!(s.poll(), PollState::Ready(true));
}

#[test]
fn long_sleep_is_pending() {
    let s = AsyncSleep::new(3_600_000_000_000);
    assert_eq!(s.poll(), PollState::Pending);
}

#[test]
fn background_process_never_finishes() {
    let b = BackgroundProcess;
    assert_eq!(b.poll(), PollState::Pending);
    assert_eq!(b.poll(), PollState::Pending);
}

#[test]
fn future_type_default_and_other() {
    assert_eq!(FutureType::default(), FutureType::Low);
    assert_eq!(FutureType::High.other(), FutureType::Low);
    assert_eq!(FutureType::Low.other(), FutureType::High);
}

#[test]
fn worker_steals_after_home_is_empty() {
    let mut w = Worker::new(FutureType::High);
    assert_eq!(w.next_queue(), FutureType::High);
    assert_eq!(w.record(false), WorkerAction::TryOther);
    assert_eq!(w.next_queue(), FutureType::Low);
    assert_eq!(w.record(false), WorkerAction::Idle);
    assert_eq!(w.next_queue(), FutureType::High);
    assert_eq!(w.record(false), WorkerAction::TryOther);
    assert_eq!(w.record(true), WorkerAction::Run);
    assert_eq!(w.next_queue(), FutureType::High);
    assert_eq!(w.record(true), WorkerAction::Run);
}

#[test]
fn next_task_prefers_home_queue() {
    let (high_tx, high_rx) = flume::unbounded::<u32>();
    let (low_tx, low_rx) = flume::unbounded::<u32>();
    high_tx.send(1).unwrap();
    low_tx.send(2).unwrap();
    assert_eq!(next_task(FutureType::Low, &high_rx, &low_rx), Some(2));
    assert_eq!(next_task(FutureType::Low, &high_rx, &low_rx), Some(1));
    assert_eq!(next_task(FutureType::Low, &high_rx, &low_rx), None);
    low_tx.send(3).unwrap();
    high_tx.send(4).unwrap();
    assert_eq!(next_task(FutureType::High, &high_rx, &low_rx), Some(4));
    assert_eq!(next_task(FutureType::High, &high_rx, &low_rx), Some(3));
    assert_eq!(next_task(FutureType::High, &high_rx, &low_rx), None);
}

#[test]
fn sleep_started_at_a_given_time() {
    let start = clock_now();
    let s = AsyncSleep::starting_at(start, 0);
    assert_eq!(s.start_time, start);
    assert_eq!(s.poll(), PollState::Ready(true));
    let long = AsyncSleep::starting_at(clock_now(), 3_600_000_000_000);
    assert_eq!(long.poll(), PollState::Pending);
    assert!(elapsed_since(&start) < 3_600_000_000_000);
}

#[test]
fn receiver_for_picks_the_queue() {
    let (high_tx, high_rx) = flume::unbounded::<u32>();
    let (_low_tx, low_rx) = flume::unbounded::<u32>();
    high_tx.send(7).unwrap();
    assert_eq!(take_from(receiver_for(FutureType::Low, &high_rx, &low_rx)), None);
    assert_eq!(take_from(receiver_for(FutureType::High, &high_rx, &low_rx)), Some(7));
    assert_eq!(take_from(&high_rx), None);
}
