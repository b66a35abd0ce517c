//! The shared counter of recorded transfers.

use vstd::prelude::*;

verus! {

/// A single unsigned 64-bit counter.  It starts at zero, moves only by
/// increments of one, and is never reset while its ledger is live; the
/// transaction recorder is its only writer.
#[derive(Debug)]
pub struct LedgerCounter {
    count: u64,
}

impl LedgerCounter {
    /// The current reading, as a mathematical value.
    pub closed spec fn spec_count(self) -> u64 {
        self.count
    }

    /// A fresh counter, starting at zero.
    pub fn new() -> (c: Self)
        ensures
            c.spec_count() == 0,
    {
        LedgerCounter { count: 0 }
    }

    /// The current reading; read-only and side-effect free.
    pub fn get(&self) -> (n: u64)
        ensures
            n == self.spec_count(),
    {
        self.count
    }

    /// Called by the transaction recorder alone, once per recorded transfer.
    pub(crate) fn increment(&mut self)
        requires
            old(self).spec_count() < u64::MAX,
        ensures
            final(self).spec_count() == old(self).spec_count() + 1,
    {
        self.count = self.count + 1;
    }
}

} // verus!
