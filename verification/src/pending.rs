//! The count of file batches handed to the silence-check thread and not yet
//! scanned. A batch is added when it is submitted and finished when it has
//! been scanned, or when it could not be queued at all; waiting for the
//! silence checks means waiting for the count to reach zero.

use vstd::prelude::*;

verus! {

/// Batches submitted for a silence check and not yet scanned.
pub struct PendingBatches {
    count: usize,
}

impl View for PendingBatches {
    type V = nat;

    closed spec fn view(&self) -> nat {
        self.count as nat
    }
}

impl PendingBatches {
    /// No batch pending.
    pub fn new() -> (r: PendingBatches)
        ensures
            r@ == 0,
    {
        PendingBatches { count: 0 }
    }

    /// The number of pending batches.
    pub fn count(&self) -> (r: usize)
        ensures
            r == self@,
    {
        self.count
    }

    /// A batch was submitted.
    pub fn add(&mut self)
        requires
            old(self)@ < usize::MAX,
        ensures
            final(self)@ == old(self)@ + 1,
    {
        self.count = self.count + 1;
    }

    /// A batch was scanned, or dropped before it could be queued. Finishing
    /// with nothing pending leaves the count at zero.
    pub fn finish(&mut self)
        ensures
            final(self)@ == if old(self)@ == 0 {
                0
            } else {
                (old(self)@ - 1) as nat
            },
    {
        if self.count > 0 {
            self.count = self.count - 1;
        }
    }

    /// Whether every submitted batch has been scanned.
    pub fn is_idle(&self) -> (r: bool)
        ensures
            r == (self@ == 0),
    {
        self.count == 0
    }
}

} // verus!
