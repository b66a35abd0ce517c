//! The ordered, append-only collection of recorded transfers.

use vstd::prelude::*;

use crate::record::{RecordView, TransferRecord};

verus! {

/// The ghost image of a sequence of stored records.
pub open spec fn views_of(s: Seq<TransferRecord>) -> Seq<RecordView> {
    s.map_values(|t: TransferRecord| t@)
}

/// An ordered sequence of transfer records.  Insertion order is preserved and
/// is the only query-relevant ordering; records are never mutated or removed.
#[derive(Debug)]
pub struct HistoryCollection {
    records: Vec<TransferRecord>,
}

impl View for HistoryCollection {
    type V = Seq<RecordView>;

    closed spec fn view(&self) -> Seq<RecordView> {
        views_of(self.records@)
    }
}

impl HistoryCollection {
    /// A fresh, empty history.
    pub fn new() -> (h: Self)
        ensures
            h@ == Seq::<RecordView>::empty(),
    {
        let h = HistoryCollection { records: Vec::new() };
        proof {
            assert(h@ =~= Seq::<RecordView>::empty());
        }
        h
    }

    /// How many records have been appended.
    pub fn len(&self) -> (n: usize)
        ensures
            n == self@.len(),
    {
        self.records.len()
    }

    /// Called by the transaction recorder alone; the history grows by exactly
    /// the given record, at the end.
    pub(crate) fn append(&mut self, record: TransferRecord)
        ensures
            final(self)@ == old(self)@.push(record@),
    {
        let ghost prev = self.records@;
        self.records.push(record);
        proof {
            assert(views_of(self.records@) =~= views_of(prev).push(self.records@.last()@));
        }
    }

    /// The record at position `i`, counted from the oldest.
    pub fn get(&self, i: usize) -> (r: &TransferRecord)
        requires
            i < self@.len(),
        ensures
            r@ == self@[i as int],
    {
        &self.records[i]
    }

    /// The full ordered sequence as it exists at call time.
    pub fn as_vec(&self) -> (r: &Vec<TransferRecord>)
        ensures
            views_of(r@) == self@,
            r@.len() == self@.len(),
    {
        &self.records
    }
}

} // verus!
