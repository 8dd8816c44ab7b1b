use vstd::prelude::*;

verus! {

/// A value that refers to a part of itself: its text, and a reference to
/// that same text.
///
/// The reference is taken from the value each time it is asked for, so it
/// designates the value's own text wherever the value has been moved to.
pub struct SelfReferential {
    pub data: String,
}

impl SelfReferential {
    pub fn new(data: String) -> (r: SelfReferential)
        ensures
            r.data@ == data@,
    {
        SelfReferential { data }
    }

    /// The text that the value refers to: its own.
    pub fn self_pointer(&self) -> (r: &String)
        ensures
            r@ == self.data@,
    {
        &self.data
    }
}

} // verus!
