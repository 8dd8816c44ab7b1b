//! Small building blocks of asynchronous programs: CPU-bound work, a file
//! change watcher, counters shared between futures, hand-written futures and
//! the scheduling rules of a two-priority task executor.

pub mod fibonacci;
pub mod poll_state;
pub mod shared_counter;
pub mod file_watch;
pub mod pinning;
pub mod runtime;
pub mod executor;
