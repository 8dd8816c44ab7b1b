use vstd::prelude::*;

verus! {

/// The decision a file watcher takes each time it looks at the file: it
/// remembers the last modification time it saw and signals a change when a
/// successful look shows a different one.
///
/// A modification time is held as a signed count of nanoseconds from the
/// Unix epoch (negative before it); `None` stands for a look that failed
/// (the file's metadata could not be read).
pub struct FileWatch {
    pub last_modified: Option<i128>,
}

/// The watcher's memory and signal after one look: `seen` is what the look
/// found.
pub open spec fn watch_step(last: Option<i128>, seen: Option<i128>) -> (Option<i128>, bool) {
    match seen {
        Some(stamp) => if last == Some(stamp) {
            (last, false)
        } else {
            (Some(stamp), true)
        },
        None => (last, false),
    }
}

impl FileWatch {
    /// A watcher that has seen nothing yet.
    pub fn new() -> (r: FileWatch)
        ensures
            r.last_modified == None::<i128>,
    {
        FileWatch { last_modified: None }
    }

    /// Records one look at the file and says whether to signal a change.
    pub fn observe(&mut self, seen: Option<i128>) -> (changed: bool)
        ensures
            (final(self).last_modified, changed) == watch_step(old(self).last_modified, seen),
    {
        match seen {
            Some(stamp) => {
                let same = match self.last_modified {
                    Some(last) => last == stamp,
                    None => false,
                };
                if same {
                    false
                } else {
                    self.last_modified = Some(stamp);
                    true
                }
            },
            None => false,
        }
    }
}

/// A watcher signals exactly when a successful look finds a modification
/// time other than the last one it remembers, and it then remembers the new
/// one; a failed look neither signals nor changes what it remembers.
pub proof fn lemma_signal_iff_changed(last: Option<i128>, seen: Option<i128>)
    ensures
        watch_step(last, seen).1 <==> (seen is Some && seen != last),
        watch_step(last, seen).0 == if seen is Some { seen } else { last },
{
}

/// Looking twice in a row and finding the same modification time signals at
/// most once: the second look never signals.
pub proof fn lemma_no_repeat_signal(last: Option<i128>, seen: Option<i128>)
    ensures
        !watch_step(watch_step(last, seen).0, seen).1,
        watch_step(watch_step(last, seen).0, seen).0 == watch_step(last, seen).0,
{
}

/// The first successful look of a fresh watcher always signals.
pub proof fn lemma_first_look_signals(stamp: i128)
    ensures
        watch_step(None, Some(stamp)) == (Some(stamp), true),
{
}

} // verus!
