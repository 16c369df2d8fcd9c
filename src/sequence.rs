//! The signing account's transaction sequence number, kept locally so that
//! several transactions can be sent without waiting for any of them.

use vstd::prelude::*;

verus! {

/// Owns the next sequence number to sign with. It is read from the ledger
/// once, at start-up, and afterwards only advanced by one per submission.
pub struct SequenceTracker {
    next: u32,
}

impl View for SequenceTracker {
    type V = nat;

    closed spec fn view(&self) -> nat {
        self.next as nat
    }
}

impl SequenceTracker {
    /// A tracker that starts at the ledger's current sequence number.
    pub fn new(start: u32) -> (r: Self)
        ensures
            r@ == start,
    {
        SequenceTracker { next: start }
    }

    /// The sequence number the next transaction is signed with.
    pub fn current(&self) -> (r: u32)
        ensures
            r == self@,
    {
        self.next
    }

    /// Whether the counter can still be advanced without leaving `u32`.
    pub fn can_advance(&self) -> (r: bool)
        ensures
            r == (self@ < u32::MAX),
    {
        self.next < u32::MAX
    }

    /// Moves on to the next sequence number.
    pub fn advance(&mut self)
        requires
            old(self)@ < u32::MAX,
        ensures
            final(self)@ == old(self)@ + 1,
    {
        self.next = self.next + 1;
    }
}

} // verus!
