use vstd::prelude::*;

verus! {

/// What one poll of a hand-written future decides: it has finished with a
/// value, or it is not finished yet and asks its waker to poll it again.
#[derive(Debug, PartialEq, Eq)]
pub enum PollState<T> {
    Ready(T),
    Pending,
}

/// How many counted polls a counting future makes before it is ready.
pub const ROUNDS: u32 = 3;

/// What a counting future answers once its count of counted polls has
/// become `count`: pending below three, then ready with the count.
pub open spec fn count_outcome(count: u32) -> PollState<u32> {
    if count < ROUNDS {
        PollState::Pending
    } else {
        PollState::Ready(count)
    }
}

} // verus!
