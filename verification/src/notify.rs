//! The notification channel: a fire-and-forget broadcast of recorded
//! transfers to registered listeners.
//!
//! Delivery is decoupled from the write path: the recorder only places a copy
//! of the new record into every registered listener's mailbox, and each
//! listener collects its mailbox whenever it likes.  A slow or absent
//! listener therefore never stalls a recording, and a failed recording never
//! reaches any mailbox.

use vstd::prelude::*;

use crate::history::views_of;
use crate::record::{RecordView, TransferRecord};

verus! {

/// The ghost image of one mailbox slot: `None` for an unregistered slot,
/// otherwise the pending notification payloads, oldest first.
pub open spec fn slot_view(slot: Option<Vec<TransferRecord>>) -> Option<Seq<RecordView>> {
    match slot {
        Some(pending) => Some(views_of(pending@)),
        None => None,
    }
}

/// The ghost image of every mailbox slot.
pub open spec fn slot_views(slots: Seq<Option<Vec<TransferRecord>>>) -> Seq<
    Option<Seq<RecordView>>,
> {
    slots.map_values(|slot: Option<Vec<TransferRecord>>| slot_view(slot))
}

/// A registration handle, returned by `on_transfer` and usable to collect
/// notifications or to unregister.  Handles are never reused: a slot that was
/// given out once stays retired after unregistration.
#[derive(Clone, Copy, Debug, PartialEq, Eq, Structural)]
pub struct ListenerHandle {
    id: usize,
}

impl ListenerHandle {
    /// The slot this handle names.
    pub closed spec fn spec_id(self) -> int {
        self.id as int
    }

    /// The slot this handle names.
    pub fn id(&self) -> (i: usize)
        ensures
            i == self.spec_id(),
    {
        self.id
    }
}

/// The observer list: one mailbox per registered listener.
#[derive(Debug)]
pub struct NotificationChannel {
    mailboxes: Vec<Option<Vec<TransferRecord>>>,
}

impl View for NotificationChannel {
    type V = Seq<Option<Seq<RecordView>>>;

    closed spec fn view(&self) -> Seq<Option<Seq<RecordView>>> {
        slot_views(self.mailboxes@)
    }
}

impl NotificationChannel {
    /// Whether `h` names a currently registered listener.
    pub open spec fn spec_registered(self, h: ListenerHandle) -> bool {
        0 <= h.spec_id() < self@.len() && self@[h.spec_id()] is Some
    }

    /// A fresh channel with no listeners.
    pub fn new() -> (c: Self)
        ensures
            c@ == Seq::<Option<Seq<RecordView>>>::empty(),
    {
        let c = NotificationChannel { mailboxes: Vec::new() };
        proof {
            assert(c@ =~= Seq::<Option<Seq<RecordView>>>::empty());
        }
        c
    }

    /// Registers a listener and hands back its handle.  The new mailbox is
    /// empty: a listener only sees transfers recorded after registration.
    pub fn register(&mut self) -> (h: ListenerHandle)
        ensures
            final(self)@ == old(self)@.push(Some(Seq::<RecordView>::empty())),
            h.spec_id() == old(self)@.len(),
            final(self).spec_registered(h),
    {
        let h = ListenerHandle { id: self.mailboxes.len() };
        self.mailboxes.push(None);
        let slot = &mut self.mailboxes[h.id];
        *slot = Some(Vec::new());
        proof {
            assert(self@ =~~= old(self)@.push(Some(Seq::<RecordView>::empty())));
        }
        h
    }

    /// Whether `h` names a currently registered listener.
    pub fn is_registered(&self, h: &ListenerHandle) -> (r: bool)
        ensures
            r == self.spec_registered(*h),
    {
        h.id() < self.mailboxes.len() && self.mailboxes[h.id()].is_some()
    }

    /// Retires the handle's mailbox.  Returns whether the handle was
    /// registered; an unknown or retired handle leaves the channel unchanged.
    pub fn unregister(&mut self, h: &ListenerHandle) -> (was: bool)
        ensures
            was == old(self).spec_registered(*h),
            was ==> final(self)@ == old(self)@.update(h.spec_id(), None::<Seq<RecordView>>),
            !was ==> final(self)@ == old(self)@,
    {
        if h.id() < self.mailboxes.len() {
            if self.mailboxes[h.id()].is_some() {
                let slot = &mut self.mailboxes[h.id()];
                *slot = None;
                proof {
                    assert(self@ =~~= old(self)@.update(h.spec_id(), None::<Seq<RecordView>>));
                }
                return true;
            }
        }
        false
    }

    /// Hands out everything pending for `h`, oldest first, and empties the
    /// mailbox.  An unknown or retired handle gets nothing and changes
    /// nothing.
    pub fn collect_notifications(&mut self, h: &ListenerHandle) -> (out: Vec<TransferRecord>)
        ensures
            old(self).spec_registered(*h) ==> {
                &&& Some(views_of(out@)) == old(self)@[h.spec_id()]
                &&& final(self)@ == old(self)@.update(
                    h.spec_id(),
                    Some(Seq::<RecordView>::empty()),
                )
            },
            !old(self).spec_registered(*h) ==> {
                &&& out@.len() == 0
                &&& final(self)@ == old(self)@
            },
    {
        if h.id() < self.mailboxes.len() {
            if self.mailboxes[h.id()].is_some() {
                let slot = &mut self.mailboxes[h.id()];
                let mut taken: Option<Vec<TransferRecord>> = Some(Vec::new());
                core::mem::swap(slot, &mut taken);
                proof {
                    assert(self@ =~~= old(self)@.update(
                        h.spec_id(),
                        Some(Seq::<RecordView>::empty()),
                    ));
                }
                return taken.unwrap();
            }
        }
        Vec::new()
    }

    /// Called by the transaction recorder alone, once per recorded transfer:
    /// places one copy of the record into every registered mailbox, at the
    /// end, and touches nothing else.
    pub(crate) fn emit(&mut self, record: &TransferRecord)
        ensures
            final(self)@.len() == old(self)@.len(),
            forall|j: int|
                0 <= j < old(self)@.len() && old(self)@[j] is Some ==> final(self)@[j] == Some(
                    old(self)@[j].unwrap().push(record@),
                ),
            forall|j: int|
                0 <= j < old(self)@.len() && old(self)@[j] is None ==> final(self)@[j] == old(
                    self,
                )@[j],
    {
        let n = self.mailboxes.len();
        let mut i: usize = 0;
        while i < n
            invariant
                n == self@.len(),
                n == old(self)@.len(),
                i <= n,
                forall|j: int|
                    i <= j < n ==> self@[j] == old(self)@[j],
                forall|j: int|
                    0 <= j < i && old(self)@[j] is Some ==> self@[j] == Some(
                        old(self)@[j].unwrap().push(record@),
                    ),
                forall|j: int|
                    0 <= j < i && old(self)@[j] is None ==> self@[j] == old(self)@[j],
            decreases n - i,
        {
            let ghost pre = self@;
            let ghost pre_slots = self.mailboxes@;
            proof {
                assert(pre[i as int] == old(self)@[i as int]);
                assert(pre[i as int] == slot_view(pre_slots[i as int]));
            }
            let slot = &mut self.mailboxes[i];
            let mut taken: Option<Vec<TransferRecord>> = None;
            core::mem::swap(slot, &mut taken);
            let updated = match taken {
                Some(mut pending) => {
                    let ghost before = pending@;
                    pending.push(record.clone());
                    proof {
                        assert(views_of(pending@) =~= views_of(before).push(record@));
                    }
                    Some(pending)
                },
                None => None,
            };
            *slot = updated;
            proof {
                assert(self.mailboxes@ =~= pre_slots.update(i as int, updated));
                assert(self@[i as int] == slot_view(updated));
                assert forall|j: int| 0 <= j < pre.len() && j != i implies self@[j] == pre[j] by {
                    assert(self.mailboxes@[j] == pre_slots[j]);
                    assert(self@[j] == slot_view(self.mailboxes@[j]));
                    assert(pre[j] == slot_view(pre_slots[j]));
                }
                assert forall|j: int|
                    0 <= j < i + 1 && old(self)@[j] is Some implies self@[j] == Some(
                    old(self)@[j].unwrap().push(record@),
                ) by {
                    if j < i {
                        assert(pre[j] == Some(old(self)@[j].unwrap().push(record@)));
                    }
                }
            }
            i += 1;
        }
    }
}

} // verus!
