//! The ledger instance and its transaction recorder.
//!
//! A `Ledger` owns the append-only history, the transfer counter and the
//! notification channel of one ledger instance.  `record_transfer` is the
//! single writer: it validates the caller and the text budgets, appends an
//! immutable record, advances the counter by exactly one and places one copy
//! of the record in every registered listener's mailbox — or, on any error,
//! changes nothing at all.

use vstd::prelude::*;

use crate::counter::LedgerCounter;
use crate::errors::RecordError;
use crate::history::{views_of, HistoryCollection};
use crate::identity::Identity;
use crate::notify::{ListenerHandle, NotificationChannel};
use crate::record::{spec_serialized_len, total_serialized_len, utf8_len, RecordView, TransferRecord};

verus! {

/// Whether a record's text fields fit a per-field byte budget.
pub open spec fn record_fits(r: RecordView, budget: int) -> bool {
    utf8_len(r.message) <= budget && utf8_len(r.keyword) <= budget
}

/// One ledger instance: the ordered transfer history, its counter, the
/// observer list, and the capacity fixed when the store was created.
#[derive(Debug)]
pub struct Ledger {
    history: HistoryCollection,
    counter: LedgerCounter,
    channel: NotificationChannel,
    max_records: usize,
    field_budget: usize,
}

impl Ledger {
    /// The ordered sequence of recorded transfers, oldest first.
    pub closed spec fn spec_records(self) -> Seq<RecordView> {
        self.history@
    }

    /// The counter reading.
    pub closed spec fn spec_count(self) -> u64 {
        self.counter.spec_count()
    }

    /// The mailbox of every listener slot ever registered.
    pub closed spec fn spec_mailboxes(self) -> Seq<Option<Seq<RecordView>>> {
        self.channel@
    }

    /// The maximum number of records the store accepts.
    pub closed spec fn spec_max_records(self) -> int {
        self.max_records as int
    }

    /// The per-field serialization byte budget for message and keyword.
    pub closed spec fn spec_field_budget(self) -> int {
        self.field_budget as int
    }

    /// Validity of a ledger instance: the counter always equals the history
    /// length, the history never outgrows the configured capacity, and every
    /// stored record fits the configured budget of the 4-byte-prefixed
    /// layout.
    pub open spec fn well_formed(self) -> bool {
        &&& self.spec_count() == self.spec_records().len()
        &&& self.spec_records().len() <= self.spec_max_records()
        &&& self.spec_field_budget() <= u32::MAX
        &&& forall|i: int|
            0 <= i < self.spec_records().len() ==> #[trigger] record_fits(
                self.spec_records()[i],
                self.spec_field_budget(),
            )
    }

    /// Whether `h` names a currently registered listener.
    pub open spec fn spec_registered(self, h: ListenerHandle) -> bool {
        0 <= h.spec_id() < self.spec_mailboxes().len() && self.spec_mailboxes()[h.spec_id()]
            is Some
    }

    /// Whether the given text fields fit this ledger's per-field budget.
    pub open spec fn fits_budget(self, message: Seq<char>, keyword: Seq<char>) -> bool {
        utf8_len(message) <= self.spec_field_budget() && utf8_len(keyword)
            <= self.spec_field_budget()
    }

    /// Whether the store still has room for one more record.
    pub open spec fn has_room(self) -> bool {
        self.spec_records().len() < self.spec_max_records()
    }

    /// A fresh ledger: empty history, counter at zero, no listeners.  The
    /// store accepts at most `max_records` records, and each text field of a
    /// record at most `field_budget` bytes; the budget must fit the 4-byte
    /// length prefix of the record layout.
    pub fn new(max_records: usize, field_budget: usize) -> (l: Ledger)
        requires
            field_budget <= u32::MAX as usize,
        ensures
            l.well_formed(),
            l.spec_records() == Seq::<RecordView>::empty(),
            l.spec_count() == 0,
            l.spec_mailboxes() == Seq::<Option<Seq<RecordView>>>::empty(),
            l.spec_max_records() == max_records as int,
            l.spec_field_budget() == field_budget as int,
    {
        Ledger {
            history: HistoryCollection::new(),
            counter: LedgerCounter::new(),
            channel: NotificationChannel::new(),
            max_records,
            field_budget,
        }
    }

    /// The maximum number of records the store accepts.
    pub fn max_records(&self) -> (n: usize)
        ensures
            n as int == self.spec_max_records(),
    {
        self.max_records
    }

    /// The per-field serialization byte budget.
    pub fn field_budget(&self) -> (n: usize)
        ensures
            n as int == self.spec_field_budget(),
    {
        self.field_budget
    }

    /// The counter reading; read-only and side-effect free.
    pub fn get_count(&self) -> (n: u64)
        ensures
            n == self.spec_count(),
    {
        self.counter.get()
    }

    /// The full ordered transfer history as it exists at call time;
    /// read-only and side-effect free.
    pub fn list_transfers(&self) -> (r: &Vec<TransferRecord>)
        ensures
            views_of(r@) == self.spec_records(),
            r@.len() == self.spec_records().len(),
    {
        self.history.as_vec()
    }

    /// Records one transfer, stamping it with the given clock reading, as
    /// one atomic unit of work: on success the record is appended, the
    /// counter advances by exactly one and every registered mailbox receives
    /// exactly one copy; on any error nothing changes.  The hosting
    /// environment supplies `now`; `record_transfer` reads the system clock
    /// instead.
    pub fn record_transfer_at(
        &mut self,
        caller: &Identity,
        sender: &Identity,
        receiver: &Identity,
        amount: u64,
        message: String,
        keyword: String,
        now: i64,
    ) -> (result: Result<TransferRecord, RecordError>)
        requires
            old(self).well_formed(),
        ensures
            final(self).well_formed(),
            final(self).spec_max_records() == old(self).spec_max_records(),
            final(self).spec_field_budget() == old(self).spec_field_budget(),
            old(self).spec_records().is_prefix_of(final(self).spec_records()),
            old(self).spec_count() <= final(self).spec_count(),
            result is Ok <==> (caller@ == sender@ && old(self).fits_budget(message@, keyword@)
                && old(self).has_room()),
            caller@ != sender@ ==> result == Err::<TransferRecord, RecordError>(
                RecordError::Unauthorized,
            ),
            caller@ == sender@ && !old(self).fits_budget(message@, keyword@) ==> result == Err::<
                TransferRecord,
                RecordError,
            >(RecordError::FieldTooLong),
            caller@ == sender@ && old(self).fits_budget(message@, keyword@) && !old(
                self,
            ).has_room() ==> result == Err::<TransferRecord, RecordError>(
                RecordError::CapacityExceeded,
            ),
            result is Err ==> *final(self) == *old(self),
            result matches Ok(rec) ==> {
                &&& rec@ == (RecordView {
                    sender: sender@,
                    receiver: receiver@,
                    amount,
                    message: message@,
                    keyword: keyword@,
                    timestamp: now as int,
                })
                &&& final(self).spec_records() == old(self).spec_records().push(rec@)
                &&& final(self).spec_count() == old(self).spec_count() + 1
                &&& final(self).spec_mailboxes().len() == old(self).spec_mailboxes().len()
                &&& forall|j: int|
                    0 <= j < old(self).spec_mailboxes().len() && old(self).spec_mailboxes()[j]
                        is Some ==> final(self).spec_mailboxes()[j] == Some(
                        old(self).spec_mailboxes()[j].unwrap().push(rec@),
                    )
                &&& forall|j: int|
                    0 <= j < old(self).spec_mailboxes().len() && old(self).spec_mailboxes()[j]
                        is None ==> final(self).spec_mailboxes()[j] == old(self).spec_mailboxes()[j]
            },
    {
        if !(caller == sender) {
            return Err(RecordError::Unauthorized);
        }
        if message.as_str().as_bytes().len() > self.field_budget
            || keyword.as_str().as_bytes().len() > self.field_budget {
            return Err(RecordError::FieldTooLong);
        }
        if self.history.len() >= self.max_records {
            return Err(RecordError::CapacityExceeded);
        }
        let record = TransferRecord::new(*sender, *receiver, amount, message, keyword, now);
        let stored = record.clone();
        let ghost prev_records = self.spec_records();
        self.history.append(stored);
        self.counter.increment();
        self.channel.emit(&record);
        proof {
            assert(prev_records.is_prefix_of(self.spec_records())) by {
                assert(prev_records =~= self.spec_records().subrange(0, prev_records.len() as int));
            }
            assert forall|i: int| 0 <= i < self.spec_records().len() implies #[trigger] record_fits(
                self.spec_records()[i],
                self.spec_field_budget(),
            ) by {
                if i < prev_records.len() {
                    assert(record_fits(prev_records[i], self.spec_field_budget()));
                }
            }
        }
        Ok(record)
    }

    /// Records one transfer stamped with the current wall-clock time.  The
    /// guarantees of `record_transfer_at` hold with the one difference that
    /// the timestamp is whatever the clock read at the moment of the call; it
    /// is never caller-supplied.
    pub fn record_transfer(
        &mut self,
        caller: &Identity,
        sender: &Identity,
        receiver: &Identity,
        amount: u64,
        message: String,
        keyword: String,
    ) -> (result: Result<TransferRecord, RecordError>)
        requires
            old(self).well_formed(),
        ensures
            final(self).well_formed(),
            final(self).spec_max_records() == old(self).spec_max_records(),
            final(self).spec_field_budget() == old(self).spec_field_budget(),
            old(self).spec_records().is_prefix_of(final(self).spec_records()),
            old(self).spec_count() <= final(self).spec_count(),
            result is Ok <==> (caller@ == sender@ && old(self).fits_budget(message@, keyword@)
                && old(self).has_room()),
            caller@ != sender@ ==> result == Err::<TransferRecord, RecordError>(
                RecordError::Unauthorized,
            ),
            caller@ == sender@ && !old(self).fits_budget(message@, keyword@) ==> result == Err::<
                TransferRecord,
                RecordError,
            >(RecordError::FieldTooLong),
            caller@ == sender@ && old(self).fits_budget(message@, keyword@) && !old(
                self,
            ).has_room() ==> result == Err::<TransferRecord, RecordError>(
                RecordError::CapacityExceeded,
            ),
            result is Err ==> *final(self) == *old(self),
            result matches Ok(rec) ==> {
                &&& rec@.sender == sender@
                &&& rec@.receiver == receiver@
                &&& rec@.amount == amount
                &&& rec@.message == message@
                &&& rec@.keyword == keyword@
                &&& final(self).spec_records() == old(self).spec_records().push(rec@)
                &&& final(self).spec_count() == old(self).spec_count() + 1
                &&& final(self).spec_mailboxes().len() == old(self).spec_mailboxes().len()
                &&& forall|j: int|
                    0 <= j < old(self).spec_mailboxes().len() && old(self).spec_mailboxes()[j]
                        is Some ==> final(self).spec_mailboxes()[j] == Some(
                        old(self).spec_mailboxes()[j].unwrap().push(rec@),
                    )
                &&& forall|j: int|
                    0 <= j < old(self).spec_mailboxes().len() && old(self).spec_mailboxes()[j]
                        is None ==> final(self).spec_mailboxes()[j] == old(self).spec_mailboxes()[j]
            },
    {
        let now = unix_time_now();
        self.record_transfer_at(caller, sender, receiver, amount, message, keyword, now)
    }

    /// Registers a listener; its empty mailbox will receive one copy of
    /// every transfer recorded from now on.  The history and the counter are
    /// untouched.
    pub fn on_transfer(&mut self) -> (h: ListenerHandle)
        ensures
            final(self).spec_records() == old(self).spec_records(),
            final(self).spec_count() == old(self).spec_count(),
            final(self).spec_max_records() == old(self).spec_max_records(),
            final(self).spec_field_budget() == old(self).spec_field_budget(),
            old(self).well_formed() ==> final(self).well_formed(),
            final(self).spec_mailboxes() == old(self).spec_mailboxes().push(
                Some(Seq::<RecordView>::empty()),
            ),
            h.spec_id() == old(self).spec_mailboxes().len(),
            final(self).spec_registered(h),
    {
        self.channel.register()
    }

    /// Whether `h` names a currently registered listener.
    pub fn is_registered(&self, h: &ListenerHandle) -> (r: bool)
        ensures
            r == self.spec_registered(*h),
    {
        self.channel.is_registered(h)
    }

    /// Retires a listener's mailbox; later transfers no longer reach it.
    /// Returns whether the handle was registered.  The history and the
    /// counter are untouched.
    pub fn unregister(&mut self, h: &ListenerHandle) -> (was: bool)
        ensures
            final(self).spec_records() == old(self).spec_records(),
            final(self).spec_count() == old(self).spec_count(),
            final(self).spec_max_records() == old(self).spec_max_records(),
            final(self).spec_field_budget() == old(self).spec_field_budget(),
            old(self).well_formed() ==> final(self).well_formed(),
            was == old(self).spec_registered(*h),
            was ==> final(self).spec_mailboxes() == old(self).spec_mailboxes().update(
                h.spec_id(),
                None::<Seq<RecordView>>,
            ),
            !was ==> final(self).spec_mailboxes() == old(self).spec_mailboxes(),
    {
        self.channel.unregister(h)
    }

    /// Hands the listener everything recorded for it since the last
    /// collection, oldest first, and empties its mailbox.  Delivery is
    /// thereby decoupled from the write path: collecting never blocks a
    /// recording, and an unknown or retired handle simply gets nothing.
    pub fn collect_notifications(&mut self, h: &ListenerHandle) -> (out: Vec<TransferRecord>)
        ensures
            final(self).spec_records() == old(self).spec_records(),
            final(self).spec_count() == old(self).spec_count(),
            final(self).spec_max_records() == old(self).spec_max_records(),
            final(self).spec_field_budget() == old(self).spec_field_budget(),
            old(self).well_formed() ==> final(self).well_formed(),
            old(self).spec_registered(*h) ==> {
                &&& Some(views_of(out@)) == old(self).spec_mailboxes()[h.spec_id()]
                &&& final(self).spec_mailboxes() == old(self).spec_mailboxes().update(
                    h.spec_id(),
                    Some(Seq::<RecordView>::empty()),
                )
            },
            !old(self).spec_registered(*h) ==> {
                &&& out@.len() == 0
                &&& final(self).spec_mailboxes() == old(self).spec_mailboxes()
            },
    {
        self.channel.collect_notifications(h)
    }
}

/// Law: at every quiescent point of a valid ledger, the number of listed
/// transfers equals the counter reading.
pub proof fn lemma_count_matches_history(l: Ledger)
    requires
        l.well_formed(),
    ensures
        l.spec_count() == l.spec_records().len(),
{
}

/// Law: the history is append-only, so no operation alters a previously
/// appended record.  Every operation of `Ledger` ensures that the old record
/// sequence is a prefix of the new one; this lemma says that such a step
/// keeps every already-recorded entry, at its position, exactly as it was.
pub proof fn lemma_history_immutable(before: Seq<RecordView>, after: Seq<RecordView>)
    requires
        before.is_prefix_of(after),
    ensures
        forall|i: int| 0 <= i < before.len() ==> after[i] == before[i],
{
}

/// Law: the serialized history of a valid ledger always fits the byte size
/// its store was provisioned with at creation, the maximum record count
/// times the per-record budget of 88 fixed bytes plus two text fields.
pub proof fn lemma_store_bytes_bounded(l: Ledger)
    requires
        l.well_formed(),
    ensures
        total_serialized_len(l.spec_records()) <= l.spec_max_records() * (88 + 2
            * l.spec_field_budget()),
{
    lemma_total_len_bounded(l.spec_records(), l.spec_field_budget());
    assert(l.spec_records().len() * (88 + 2 * l.spec_field_budget()) <= l.spec_max_records() * (88
        + 2 * l.spec_field_budget())) by (nonlinear_arith)
        requires
            l.spec_records().len() <= l.spec_max_records(),
            l.spec_field_budget() >= 0,
    ;
}

/// Each record of `s` fits `budget` per text field, so the whole sequence
/// serializes into at most `s.len()` times the per-record bound.
proof fn lemma_total_len_bounded(s: Seq<RecordView>, budget: int)
    requires
        budget >= 0,
        forall|i: int| 0 <= i < s.len() ==> #[trigger] record_fits(s[i], budget),
    ensures
        total_serialized_len(s) <= s.len() * (88 + 2 * budget),
    decreases s.len(),
{
    if s.len() > 0 {
        let head = s.drop_last();
        assert forall|i: int| 0 <= i < head.len() implies #[trigger] record_fits(
            head[i],
            budget,
        ) by {
            assert(record_fits(s[i], budget));
        }
        lemma_total_len_bounded(head, budget);
        assert(record_fits(s[s.len() - 1], budget));
        assert(spec_serialized_len(s.last()) <= 88 + 2 * budget);
        assert((s.len() - 1) * (88 + 2 * budget) + (88 + 2 * budget) == s.len() * (88 + 2 * budget))
            by (nonlinear_arith);
    }
}

/// Relies on `std::time::SystemTime::now` for the wall-clock reading, as
/// whole seconds since the Unix epoch; a reading from before the epoch is
/// reported as zero.  Nothing is assumed of the value: the recorder's
/// guarantees hold whatever the clock returns.
#[verifier::external_body]
fn unix_time_now() -> (r: i64) {
    match std::time::SystemTime::now().duration_since(std::time::UNIX_EPOCH) {
        Ok(elapsed) => elapsed.as_secs() as i64,
        Err(_) => 0,
    }
}

} // verus!
