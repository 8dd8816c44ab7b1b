use vstd::prelude::*;

use crate::poll_state::{PollState, ROUNDS};
use flume::Receiver;
use std::time::Instant;

verus! {

/// `std::time::Instant`, a point in time read from the monotonic clock.
#[verifier::external_type_specification]
#[verifier::external_body]
pub struct ExInstant(Instant);

/// `flume::Receiver`, the receiving end of a multi-producer multi-consumer
/// channel.
#[verifier::external_type_specification]
#[verifier::external_body]
#[verifier::reject_recursive_types(T)]
pub struct ExReceiver<T>(Receiver<T>);

/// `Instant::now`: the clock's current reading. Nothing is stated of it: it
/// depends on the time of the call.
#[verifier::external_body]
fn instant_now() -> Instant {
    Instant::now()
}

/// `Instant::elapsed`, converted to whole nanoseconds by
/// `Duration::as_nanos`: the time since `start`. Nothing is stated of it: it
/// depends on the time of the call.
#[verifier::external_body]
fn elapsed_nanos(start: &Instant) -> u128 {
    start.elapsed().as_nanos()
}

/// `flume::Receiver::try_recv`, with its error (empty or disconnected)
/// turned into `None`: takes a message that is waiting in the channel, if
/// any. Nothing is stated of the result: it depends on what other threads
/// have sent and taken.
#[verifier::external_body]
fn try_take<T>(rx: &Receiver<T>) -> Option<T> {
    rx.try_recv().ok()
}

/// The priority class of a spawned task, and of the queue it is sent to.
#[derive(Debug, Clone, Copy, PartialEq, Eq, Structural)]
pub enum FutureType {
    High,
    Low,
}

pub open spec fn other_queue(t: FutureType) -> FutureType {
    match t {
        FutureType::High => FutureType::Low,
        FutureType::Low => FutureType::High,
    }
}

impl FutureType {
    /// The queue a worker of this class steals from when its own is empty.
    pub fn other(self) -> (r: FutureType)
        ensures
            r == other_queue(self),
            r != self,
    {
        match self {
            FutureType::High => FutureType::Low,
            FutureType::Low => FutureType::High,
        }
    }
}

/// A task spawned without a priority goes to the low-priority queue.
impl Default for FutureType {
    fn default() -> (r: FutureType)
        ensures
            r == FutureType::Low,
    {
        FutureType::Low
    }
}

/// A future that counts its own polls and is ready with the count on the
/// third one.
pub struct CounterFuture {
    pub count: u32,
}

impl CounterFuture {
    pub fn new() -> (r: CounterFuture)
        ensures
            r.count == 0,
    {
        CounterFuture { count: 0 }
    }

    /// One poll: the count goes up by one; pending below three, then ready
    /// with the count.
    pub fn poll(&mut self) -> (r: PollState<u32>)
        requires
            old(self).count < u32::MAX,
        ensures
            final(self).count == old(self).count + 1,
            r == crate::poll_state::count_outcome(final(self).count),
    {
        self.count += 1;
        if self.count < ROUNDS {
            PollState::Pending
        } else {
            PollState::Ready(self.count)
        }
    }
}

/// What a sleeping future answers after `elapsed` of its `duration` (both in
/// nanoseconds) have passed.
pub open spec fn sleep_outcome(elapsed: u128, duration: u128) -> PollState<bool> {
    if elapsed >= duration {
        PollState::Ready(true)
    } else {
        PollState::Pending
    }
}

/// Reads the monotonic clock.
pub fn clock_now() -> Instant {
    instant_now()
}

/// Reads the time elapsed since `start`, in whole nanoseconds.
pub fn elapsed_since(start: &Instant) -> u128 {
    elapsed_nanos(start)
}

/// A future that is ready with `true` once a given time has passed since it
/// was made; durations are whole nanoseconds.
pub struct AsyncSleep {
    pub start_time: Instant,
    pub duration_nanos: u128,
}

impl AsyncSleep {
    /// A sleep of `duration_nanos` nanoseconds that started at `start_time`.
    pub fn starting_at(start_time: Instant, duration_nanos: u128) -> (r: AsyncSleep)
        ensures
            r.start_time == start_time,
            r.duration_nanos == duration_nanos,
    {
        AsyncSleep { start_time, duration_nanos }
    }

    /// A sleep of `duration_nanos` nanoseconds, starting now: its start is
    /// the clock's reading at the call.
    pub fn new(duration_nanos: u128) -> (r: AsyncSleep)
        ensures
            call_ensures(clock_now, (), r.start_time),
            r.duration_nanos == duration_nanos,
    {
        let now = clock_now;
        AsyncSleep::starting_at(now(), duration_nanos)
    }

    /// The answer of a poll made when `elapsed_nanos` have passed since the
    /// start.
    pub fn poll_at(&self, elapsed_nanos: u128) -> (r: PollState<bool>)
        ensures
            r == sleep_outcome(elapsed_nanos, self.duration_nanos),
    {
        if elapsed_nanos >= self.duration_nanos {
            PollState::Ready(true)
        } else {
            PollState::Pending
        }
    }

    /// One poll, against the clock: the answer `poll_at` gives for the time
    /// elapsed since this sleep's start, as read at the call. A sleep of
    /// zero nanoseconds is ready whatever the clock says.
    pub fn poll(&self) -> (r: PollState<bool>)
        ensures
            exists|elapsed: u128|
                call_ensures(elapsed_since, (&self.start_time,), elapsed) && r == #[trigger] sleep_outcome(
                    elapsed,
                    self.duration_nanos,
                ),
            r == PollState::<bool>::Pending || r == PollState::Ready(true),
            self.duration_nanos == 0 ==> r == PollState::Ready(true),
    {
        let read = elapsed_since;
        let elapsed = read(&self.start_time);
        let r = self.poll_at(elapsed);
        assert(r == sleep_outcome(elapsed, self.duration_nanos));
        r
    }
}

/// Once a sleep is over it stays over: a later poll is ready too.
pub proof fn lemma_sleep_stays_over(earlier: u128, later: u128, duration: u128)
    requires
        earlier <= later,
        sleep_outcome(earlier, duration) == PollState::Ready(true),
    ensures
        sleep_outcome(later, duration) == PollState::Ready(true),
{
}

/// A future that never finishes: each poll leaves it pending, asking to be
/// polled again.
#[derive(Debug, Clone, Copy)]
pub struct BackgroundProcess;

impl BackgroundProcess {
    pub fn poll(&self) -> (r: PollState<()>)
        ensures
            r == PollState::<()>::Pending,
    {
        PollState::Pending
    }
}

/// What a worker does after trying to take a task from a queue.
#[derive(Debug, Clone, Copy, PartialEq, Eq, Structural)]
pub enum WorkerAction {
    /// It got a task: run it.
    Run,
    /// Its own queue was empty: try the other queue.
    TryOther,
    /// Both queues were empty: pause before trying again.
    Idle,
}

/// A worker thread's scheduling state: the queue it serves, and whether it
/// has found that queue empty and is now stealing from the other one.
#[derive(Debug, Clone, Copy)]
pub struct Worker {
    pub home: FutureType,
    pub stealing: bool,
}

/// The queue a worker takes from next.
pub open spec fn queue_to_try(w: Worker) -> FutureType {
    if w.stealing {
        other_queue(w.home)
    } else {
        w.home
    }
}

/// A worker's next state and action, once a try on `queue_to_try` got a
/// task or not.
pub open spec fn worker_step(w: Worker, got_task: bool) -> (Worker, WorkerAction) {
    if got_task {
        (Worker { home: w.home, stealing: false }, WorkerAction::Run)
    } else if !w.stealing {
        (Worker { home: w.home, stealing: true }, WorkerAction::TryOther)
    } else {
        (Worker { home: w.home, stealing: false }, WorkerAction::Idle)
    }
}

impl Worker {
    /// A worker for the queue `home`, about to try that queue.
    pub fn new(home: FutureType) -> (r: Worker)
        ensures
            r.home == home,
            !r.stealing,
    {
        Worker { home, stealing: false }
    }

    pub fn next_queue(&self) -> (r: FutureType)
        ensures
            r == queue_to_try(*self),
    {
        if self.stealing {
            self.home.other()
        } else {
            self.home
        }
    }

    pub fn record(&mut self, got_task: bool) -> (r: WorkerAction)
        ensures
            (*final(self), r) == worker_step(*old(self), got_task),
    {
        if got_task {
            self.stealing = false;
            WorkerAction::Run
        } else if !self.stealing {
            self.stealing = true;
            WorkerAction::TryOther
        } else {
            self.stealing = false;
            WorkerAction::Idle
        }
    }
}

/// The receiver of the queue of class `q`.
pub open spec fn queue_receiver<'a, T>(
    q: FutureType,
    high: &'a Receiver<T>,
    low: &'a Receiver<T>,
) -> &'a Receiver<T> {
    match q {
        FutureType::High => high,
        FutureType::Low => low,
    }
}

/// Picks the receiver of the queue of class `q`.
pub fn receiver_for<'a, T>(q: FutureType, high: &'a Receiver<T>, low: &'a Receiver<T>) -> (r:
    &'a Receiver<T>)
    ensures
        r == queue_receiver(q, high, low),
{
    match q {
        FutureType::High => high,
        FutureType::Low => low,
    }
}

/// Takes one task from a queue, if one is waiting there.
pub fn take_from<T>(rx: &Receiver<T>) -> Option<T> {
    try_take(rx)
}

/// Takes the next task for a worker of class `home`: from its own queue if
/// one is waiting there, else from the other queue; `None` when neither
/// gave a task.
pub fn next_task<T>(home: FutureType, high: &Receiver<T>, low: &Receiver<T>) -> (r: Option<T>)
    ensures
        r is None ==> call_ensures(take_from::<T>, (queue_receiver(home, high, low),), None::<T>)
            && call_ensures(take_from::<T>, (queue_receiver(other_queue(home), high, low),), None::<T>),
        r is Some ==> call_ensures(take_from::<T>, (queue_receiver(home, high, low),), r) || (
        call_ensures(take_from::<T>, (queue_receiver(home, high, low),), None::<T>)
            && call_ensures(take_from::<T>, (queue_receiver(other_queue(home), high, low),), r)),
{
    let mut worker = Worker::new(home);
    let take = take_from::<T>;
    loop
        invariant
            worker.home == home,
            worker.stealing ==> call_ensures(take_from::<T>, (queue_receiver(home, high, low),), None::<T>),
        decreases
            if worker.stealing { 0int } else { 1int },
    {
        let rx = receiver_for(worker.next_queue(), high, low);
        let got = take(rx);
        match worker.record(got.is_some()) {
            WorkerAction::Run => return got,
            WorkerAction::TryOther => {},
            WorkerAction::Idle => return None,
        }
    }
}

/// A worker serves its own queue first: a fresh worker, and a worker that
/// has just run a task or paused, tries its own queue next.
pub proof fn lemma_home_first(w: Worker, got_task: bool)
    ensures
        queue_to_try(Worker { home: w.home, stealing: false }) == w.home,
        worker_step(w, got_task).1 != WorkerAction::TryOther ==> queue_to_try(
            worker_step(w, got_task).0,
        ) == w.home,
        worker_step(w, got_task).0.home == w.home,
{
}

/// A worker steals only after finding its own queue empty: its next try is
/// on the other queue exactly when its last try, on its own queue, got
/// nothing.
pub proof fn lemma_steal_only_when_home_empty(w: Worker, got_task: bool)
    ensures
        queue_to_try(worker_step(w, got_task).0) == other_queue(w.home) <==> (!w.stealing
            && !got_task),
{
}

/// A worker never tries more than two queues in a row: from its own queue,
/// the second try, whatever it gets, ends in running a task or pausing.
pub proof fn lemma_at_most_two_tries(w: Worker, first: bool, second: bool)
    requires
        !w.stealing,
    ensures
        worker_step(w, first).1 == WorkerAction::TryOther ==> worker_step(
            worker_step(w, first).0,
            second,
        ).1 != WorkerAction::TryOther,
{
}

} // verus!
