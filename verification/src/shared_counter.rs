use vstd::prelude::*;

use crate::poll_state::{PollState, ROUNDS};

verus! {

/// Which way a counting future moves the shared counter.
#[derive(Debug, Clone, Copy, PartialEq, Eq, Structural)]
pub enum CounterType {
    Increment,
    Decrement,
}

/// The value shared (behind a lock) by several counting futures.
pub struct SharedData {
    pub counter: i32,
}

/// The counter after one step of the given kind.
pub open spec fn counter_after(counter: int, counter_type: CounterType) -> int {
    match counter_type {
        CounterType::Increment => counter + 1,
        CounterType::Decrement => counter - 1,
    }
}

/// The counter after a run of steps, taken in order.
pub open spec fn counter_after_all(counter: int, steps: Seq<CounterType>) -> int
    decreases steps.len(),
{
    if steps.len() == 0 {
        counter
    } else {
        counter_after(counter_after_all(counter, steps.drop_last()), steps.last())
    }
}

/// How many steps of the given kind a run holds.
pub open spec fn count_of(steps: Seq<CounterType>, counter_type: CounterType) -> int
    decreases steps.len(),
{
    if steps.len() == 0 {
        0
    } else {
        count_of(steps.drop_last(), counter_type) + if steps.last() == counter_type {
            1int
        } else {
            0int
        }
    }
}

/// A step fits in an `i32` counter.
pub open spec fn step_fits(counter: int, counter_type: CounterType) -> bool {
    i32::MIN <= counter_after(counter, counter_type) <= i32::MAX
}

impl SharedData {
    pub fn increment(&mut self)
        requires
            old(self).counter < i32::MAX,
        ensures
            final(self).counter == old(self).counter + 1,
    {
        self.counter += 1;
    }

    pub fn decrement(&mut self)
        requires
            old(self).counter > i32::MIN,
        ensures
            final(self).counter == old(self).counter - 1,
    {
        self.counter -= 1;
    }

    /// Takes one step of the given kind.
    pub fn apply(&mut self, counter_type: CounterType)
        requires
            step_fits(old(self).counter as int, counter_type),
        ensures
            final(self).counter == counter_after(old(self).counter as int, counter_type),
    {
        match counter_type {
            CounterType::Increment => self.increment(),
            CounterType::Decrement => self.decrement(),
        }
    }
}

/// One poll of a counting future of kind `counter_type` whose count is
/// `count`, over a shared counter `counter`: a poll that holds the lock
/// (`locked`) moves the counter one step, counts itself and answers as
/// `count_outcome` says; a poll that does not get the lock changes nothing
/// and is pending. Gives the new count, the new counter and the answer.
pub open spec fn poll_step(count: int, counter: int, counter_type: CounterType, locked: bool) -> (
    int,
    int,
    PollState<u32>,
) {
    if locked {
        (
            count + 1,
            counter_after(counter, counter_type),
            crate::poll_state::count_outcome((count + 1) as u32),
        )
    } else {
        (count, counter, PollState::Pending)
    }
}

/// A future that, each time it gets the lock on the shared data, moves the
/// shared counter one step and counts its own successful polls; it is ready
/// with its count after three of them.
pub struct CounterFuture {
    pub counter_type: CounterType,
    pub count: u32,
}

impl CounterFuture {
    pub fn new(counter_type: CounterType) -> (r: CounterFuture)
        ensures
            r.counter_type == counter_type,
            r.count == 0,
    {
        CounterFuture { counter_type, count: 0 }
    }

    /// A poll that found the lock held by someone else: nothing changes, and
    /// the future asks to be polled again.
    pub fn poll_contended(&self) -> (r: PollState<u32>)
        ensures
            r == PollState::<u32>::Pending,
            forall|counter: int|
                #[trigger] poll_step(self.count as int, counter, self.counter_type, false) == (
                    self.count as int,
                    counter,
                    r,
                ),
    {
        PollState::Pending
    }

    /// A poll that holds the lock on `data`: the shared counter takes one
    /// step, the future's own count goes up by one, and the future is ready
    /// with its count once that count reaches three.
    pub fn poll_locked(&mut self, data: &mut SharedData) -> (r: PollState<u32>)
        requires
            old(self).count < u32::MAX,
            step_fits(old(data).counter as int, old(self).counter_type),
        ensures
            final(data).counter == counter_after(old(data).counter as int, old(self).counter_type),
            final(self).counter_type == old(self).counter_type,
            final(self).count == old(self).count + 1,
            r == crate::poll_state::count_outcome(final(self).count),
            (final(self).count as int, final(data).counter as int, r) == poll_step(
                old(self).count as int,
                old(data).counter as int,
                old(self).counter_type,
                true,
            ),
    {
        data.apply(self.counter_type);
        self.count += 1;
        if self.count < ROUNDS {
            PollState::Pending
        } else {
            PollState::Ready(self.count)
        }
    }
}

/// A decrement undoes an increment, and an increment undoes a decrement.
pub proof fn lemma_steps_cancel(counter: int)
    ensures
        counter_after(counter_after(counter, CounterType::Increment), CounterType::Decrement)
            == counter,
        counter_after(counter_after(counter, CounterType::Decrement), CounterType::Increment)
            == counter,
{
}

/// Whatever the order in which the futures get the lock, the shared counter
/// ends at its start plus the increments minus the decrements.
pub proof fn lemma_order_does_not_matter(counter: int, steps: Seq<CounterType>)
    ensures
        counter_after_all(counter, steps) == counter + count_of(steps, CounterType::Increment)
            - count_of(steps, CounterType::Decrement),
    decreases steps.len(),
{
    if steps.len() > 0 {
        lemma_order_does_not_matter(counter, steps.drop_last());
    }
}

/// An incrementing and a decrementing future that each finish after the
/// same number of successful polls leave the counter where it began,
/// however their polls interleave.
pub proof fn lemma_balanced_futures_restore_counter(counter: int, steps: Seq<CounterType>)
    requires
        count_of(steps, CounterType::Increment) == count_of(steps, CounterType::Decrement),
    ensures
        counter_after_all(counter, steps) == counter,
{
    lemma_order_does_not_matter(counter, steps);
}

/// How many polls of a run held the lock.
pub open spec fn locked_count(polls: Seq<bool>) -> int
    decreases polls.len(),
{
    if polls.len() == 0 {
        0
    } else {
        locked_count(polls.drop_last()) + if polls.last() {
            1int
        } else {
            0int
        }
    }
}

/// The counter after `steps` steps of the given kind from `counter`.
pub open spec fn counter_moved(counter: int, counter_type: CounterType, steps: int) -> int {
    match counter_type {
        CounterType::Increment => counter + steps,
        CounterType::Decrement => counter - steps,
    }
}

/// A run of polls of one fresh counting future over a shared counter that
/// starts at `counter`: `polls[i]` says whether poll `i` held the lock.
/// Gives the future's count, the counter and the answer of every poll.
pub open spec fn run_polls(counter: int, counter_type: CounterType, polls: Seq<bool>) -> (
    int,
    int,
    Seq<PollState<u32>>,
)
    decreases polls.len(),
{
    if polls.len() == 0 {
        (0, counter, Seq::empty())
    } else {
        let before = run_polls(counter, counter_type, polls.drop_last());
        let step = poll_step(before.0, before.1, counter_type, polls.last());
        (step.0, step.1, before.2.push(step.2))
    }
}

proof fn lemma_locked_count_prefix(polls: Seq<bool>, i: int)
    requires
        0 <= i <= polls.len(),
    ensures
        0 <= locked_count(polls.take(i)) <= locked_count(polls),
        locked_count(polls) <= locked_count(polls.take(i)) + (polls.len() - i),
    decreases polls.len(),
{
    if i < polls.len() {
        lemma_locked_count_prefix(polls.drop_last(), i);
        assert(polls.drop_last().take(i) =~= polls.take(i));
    } else {
        assert(polls.take(i) =~= polls);
        if polls.len() > 0 {
            lemma_locked_count_prefix(polls.drop_last(), 0);
        }
    }
}

/// Along any run of polls of a fresh counting future: its count is the
/// number of polls that held the lock, the counter has moved that many steps
/// its way, and each poll answers `Pending` unless it held the lock, in
/// which case it answers as `count_outcome` says for the count it reached.
pub proof fn lemma_run_polls(counter: int, counter_type: CounterType, polls: Seq<bool>)
    ensures
        run_polls(counter, counter_type, polls).0 == locked_count(polls),
        run_polls(counter, counter_type, polls).1 == counter_moved(
            counter,
            counter_type,
            locked_count(polls),
        ),
        run_polls(counter, counter_type, polls).2.len() == polls.len(),
        forall|i: int|
            0 <= i < polls.len() ==> #[trigger] run_polls(counter, counter_type, polls).2[i] == if polls[i] {
                crate::poll_state::count_outcome(locked_count(polls.take(i + 1)) as u32)
            } else {
                PollState::Pending
            },
    decreases polls.len(),
{
    if polls.len() > 0 {
        let prev = polls.drop_last();
        lemma_run_polls(counter, counter_type, prev);
        let n = polls.len() - 1;
        assert(polls.take(n + 1) =~= polls);
        assert forall|i: int| 0 <= i < n implies #[trigger] run_polls(
            counter,
            counter_type,
            polls,
        ).2[i] == if polls[i] {
            crate::poll_state::count_outcome(locked_count(polls.take(i + 1)) as u32)
        } else {
            PollState::Pending
        } by {
            assert(prev.take(i + 1) =~= polls.take(i + 1));
            assert(run_polls(counter, counter_type, polls).2[i] == run_polls(
                counter,
                counter_type,
                prev,
            ).2[i]);
        }
    }
}

/// A fresh counting future polled until it is ready: if the run ends with
/// its third poll that held the lock, every earlier poll answered
/// `Pending`, the last answers `Ready(3)`, exactly three polls held the
/// lock, and the future moved the shared counter by exactly three steps its
/// way.
pub proof fn lemma_run_until_ready(counter: int, counter_type: CounterType, polls: Seq<bool>)
    requires
        polls.len() > 0,
        polls.last(),
        locked_count(polls) == ROUNDS,
    ensures
        run_polls(counter, counter_type, polls).0 == 3,
        run_polls(counter, counter_type, polls).1 == counter_moved(counter, counter_type, 3),
        run_polls(counter, counter_type, polls).2.last() == PollState::Ready(3u32),
        forall|i: int|
            0 <= i < polls.len() - 1 ==> #[trigger] run_polls(counter, counter_type, polls).2[i]
                == PollState::<u32>::Pending,
{
    lemma_run_polls(counter, counter_type, polls);
    let n = polls.len() - 1;
    let prev = polls.drop_last();
    assert(locked_count(prev) == 2);
    assert(polls.take(n + 1) =~= polls);
    assert forall|i: int| 0 <= i < n implies #[trigger] run_polls(counter, counter_type, polls).2[i]
        == PollState::<u32>::Pending by {
        lemma_locked_count_prefix(prev, i + 1);
        assert(prev.take(i + 1) =~= polls.take(i + 1));
    }
}

/// A counting future whose polls never get the lock (as when the lock is
/// poisoned) never finishes: every poll answers `Pending`, and neither its
/// count nor the shared counter changes.
pub proof fn lemma_contended_run(counter: int, counter_type: CounterType, polls: Seq<bool>)
    requires
        forall|i: int| 0 <= i < polls.len() ==> !#[trigger] polls[i],
    ensures
        run_polls(counter, counter_type, polls).0 == 0,
        run_polls(counter, counter_type, polls).1 == counter,
        forall|i: int|
            0 <= i < polls.len() ==> #[trigger] run_polls(counter, counter_type, polls).2[i]
                == PollState::<u32>::Pending,
    decreases polls.len(),
{
    lemma_run_polls(counter, counter_type, polls);
    if polls.len() > 0 {
        lemma_contended_run(counter, counter_type, polls.drop_last());
    }
}

/// An incrementing and a decrementing future, both fresh, polled in some
/// interleaving over a counter that starts at `counter`: `events[j]` names
/// the future polled and whether the poll held the lock. A future that is
/// ready is polled no more, so an event for it changes nothing. Gives the
/// incrementer's count, the decrementer's count and the counter.
pub open spec fn run_pair(counter: int, events: Seq<(CounterType, bool)>) -> (int, int, int)
    decreases events.len(),
{
    if events.len() == 0 {
        (0, 0, counter)
    } else {
        let before = run_pair(counter, events.drop_last());
        let (who, locked) = events.last();
        match who {
            CounterType::Increment => if before.0 < ROUNDS {
                let step = poll_step(before.0, before.2, who, locked);
                (step.0, before.1, step.1)
            } else {
                before
            },
            CounterType::Decrement => if before.1 < ROUNDS {
                let step = poll_step(before.1, before.2, who, locked);
                (before.0, step.0, step.1)
            } else {
                before
            },
        }
    }
}

/// Two counting futures, one incrementing and one decrementing, sharing a
/// counter: at every point of any interleaving of their polls, each has
/// counted at most three polls, the counter is its start plus the
/// incrementer's count minus the decrementer's, so it stays within three of
/// its start (and within `i32` when the start is at least three away from
/// its ends, the next counted step included), and once both are ready the
/// counter is back at its start.
pub proof fn lemma_pair_interleaving(counter: int, events: Seq<(CounterType, bool)>)
    ensures
        0 <= run_pair(counter, events).0 <= ROUNDS,
        0 <= run_pair(counter, events).1 <= ROUNDS,
        run_pair(counter, events).2 == counter + run_pair(counter, events).0 - run_pair(
            counter,
            events,
        ).1,
        counter - 3 <= run_pair(counter, events).2 <= counter + 3,
        run_pair(counter, events).0 < ROUNDS ==> run_pair(counter, events).2 + 1 <= counter + 3,
        run_pair(counter, events).1 < ROUNDS ==> run_pair(counter, events).2 - 1 >= counter - 3,
        i32::MIN + 3 <= counter <= i32::MAX - 3 ==> i32::MIN <= run_pair(counter, events).2
            <= i32::MAX,
        run_pair(counter, events).0 == ROUNDS && run_pair(counter, events).1 == ROUNDS
            ==> run_pair(counter, events).2 == counter,
    decreases events.len(),
{
    if events.len() > 0 {
        lemma_pair_interleaving(counter, events.drop_last());
    }
}

/// The poll in which a counting future counts its third poll answers
/// `Ready(3)`; the polls that count its first and second answer `Pending`.
pub proof fn lemma_third_counted_poll_is_ready(counter: int, counter_type: CounterType)
    ensures
        poll_step(0, counter, counter_type, true).2 == PollState::<u32>::Pending,
        poll_step(1, counter, counter_type, true).2 == PollState::<u32>::Pending,
        poll_step(2, counter, counter_type, true).2 == PollState::Ready(3u32),
{
}

} // verus!
