//! One immutable transfer record and its fixed serialized layout.
//!
//! A record is laid out as two 32-byte identity handles, the amount as eight
//! little-endian bytes, the message as a 4-byte little-endian length prefix
//! followed by its UTF-8 bytes, the timestamp as eight little-endian
//! two's-complement bytes, and the keyword with the same length-prefixed
//! shape as the message.

use vstd::prelude::*;
use vstd::bytes::*;
use vstd::utf8::encode_utf8;

use crate::identity::Identity;

verus! {

/// Ghost image of one transfer record: every field as a plain mathematical
/// value.
#[verifier::ext_equal]
pub struct RecordView {
    pub sender: Seq<u8>,
    pub receiver: Seq<u8>,
    pub amount: u64,
    pub message: Seq<char>,
    pub keyword: Seq<char>,
    pub timestamp: int,
}

/// Byte length of `s` in the UTF-8 encoding.
pub open spec fn utf8_len(s: Seq<char>) -> nat {
    encode_utf8(s).len()
}

/// The two's-complement 64-bit image of a signed timestamp.
pub open spec fn spec_i64_bits(x: i64) -> u64 {
    if x >= 0 {
        x as u64
    } else {
        (x + 0x1_0000_0000_0000_0000) as u64
    }
}

/// How many bytes the serialized form of a record with the given text fields
/// occupies: 88 fixed bytes (two 32-byte identities, two 8-byte integers and
/// two 4-byte length prefixes) plus the text bytes themselves.
pub open spec fn spec_serialized_len(r: RecordView) -> int {
    88 + utf8_len(r.message) as int + utf8_len(r.keyword) as int
}

/// How many bytes a whole sequence of records occupies in the fixed layout.
pub open spec fn total_serialized_len(s: Seq<RecordView>) -> int
    decreases s.len(),
{
    if s.len() == 0 {
        0
    } else {
        total_serialized_len(s.drop_last()) + spec_serialized_len(s.last())
    }
}

/// The serialized image of one record, in field order.
pub open spec fn spec_record_bytes(r: RecordView) -> Seq<u8>
    recommends
        i64::MIN <= r.timestamp <= i64::MAX,
{
    r.sender + r.receiver + spec_u64_to_le_bytes(r.amount) + spec_u32_to_le_bytes(
        utf8_len(r.message) as u32,
    ) + encode_utf8(r.message) + spec_u64_to_le_bytes(spec_i64_bits(r.timestamp as i64))
        + spec_u32_to_le_bytes(utf8_len(r.keyword) as u32) + encode_utf8(r.keyword)
}

/// One completed transfer event.  A record is created exactly once by the
/// transaction recorder, never mutated and never deleted; nothing in this
/// crate hands out mutable access to a stored record.
#[derive(Debug)]
pub struct TransferRecord {
    sender: Identity,
    receiver: Identity,
    amount: u64,
    message: String,
    keyword: String,
    timestamp: i64,
}

impl View for TransferRecord {
    type V = RecordView;

    closed spec fn view(&self) -> RecordView {
        RecordView {
            sender: self.sender@,
            receiver: self.receiver@,
            amount: self.amount,
            message: self.message@,
            keyword: self.keyword@,
            timestamp: self.timestamp as int,
        }
    }
}

impl TransferRecord {
    /// Both text fields fit the 4-byte length prefix of the fixed layout.
    #[verifier::type_invariant]
    spec fn fits_layout(self) -> bool {
        utf8_len(self.message@) <= u32::MAX && utf8_len(self.keyword@) <= u32::MAX
    }

    /// Called by the transaction recorder alone: records enter the world only
    /// as freshly appended history entries.
    pub(crate) fn new(
        sender: Identity,
        receiver: Identity,
        amount: u64,
        message: String,
        keyword: String,
        timestamp: i64,
    ) -> (r: Self)
        requires
            utf8_len(message@) <= u32::MAX,
            utf8_len(keyword@) <= u32::MAX,
        ensures
            r@ == (RecordView {
                sender: sender@,
                receiver: receiver@,
                amount,
                message: message@,
                keyword: keyword@,
                timestamp: timestamp as int,
            }),
    {
        TransferRecord { sender, receiver, amount, message, keyword, timestamp }
    }

    /// The identity that initiated the transfer.
    pub fn sender(&self) -> (r: Identity)
        ensures
            r@ == self@.sender,
    {
        self.sender
    }

    /// The identity that received the transfer.
    pub fn receiver(&self) -> (r: Identity)
        ensures
            r@ == self@.receiver,
    {
        self.receiver
    }

    /// The transferred quantity.
    pub fn amount(&self) -> (r: u64)
        ensures
            r == self@.amount,
    {
        self.amount
    }

    /// The text annotation attached to the transfer.
    pub fn message(&self) -> (r: &String)
        ensures
            r@ == self@.message,
    {
        &self.message
    }

    /// The text tag attached to the transfer.
    pub fn keyword(&self) -> (r: &String)
        ensures
            r@ == self@.keyword,
    {
        &self.keyword
    }

    /// Seconds since the epoch, assigned by the recorder at write time.
    pub fn timestamp(&self) -> (r: i64)
        ensures
            r == self@.timestamp,
    {
        self.timestamp
    }

    /// How many bytes this record consumes in the fixed layout.
    pub fn serialized_len(&self) -> (n: u64)
        ensures
            n == spec_serialized_len(self@),
    {
        proof {
            use_type_invariant(self);
        }
        88 + self.message.as_str().len() as u64 + self.keyword.as_str().len() as u64
    }

    /// Serializes the record into its fixed layout.
    pub fn to_bytes(&self) -> (out: Vec<u8>)
        ensures
            out@ == spec_record_bytes(self@),
            out@.len() == spec_serialized_len(self@),
    {
        proof {
            use_type_invariant(self);
        }
        let mut out: Vec<u8> = Vec::new();
        let sender_bytes = self.sender.to_bytes();
        push_bytes(&mut out, sender_bytes.as_slice());
        let receiver_bytes = self.receiver.to_bytes();
        push_bytes(&mut out, receiver_bytes.as_slice());
        let amount_bytes = u64_to_le_bytes(self.amount);
        push_bytes(&mut out, amount_bytes.as_slice());
        let message_len = u32_to_le_bytes(self.message.as_str().len() as u32);
        push_bytes(&mut out, message_len.as_slice());
        push_bytes(&mut out, self.message.as_str().as_bytes());
        let timestamp_bytes = u64_to_le_bytes(i64_bits(self.timestamp));
        push_bytes(&mut out, timestamp_bytes.as_slice());
        let keyword_len = u32_to_le_bytes(self.keyword.as_str().len() as u32);
        push_bytes(&mut out, keyword_len.as_slice());
        push_bytes(&mut out, self.keyword.as_str().as_bytes());
        proof {
            assert(out@ =~= spec_record_bytes(self@));
        }
        out
    }
}

impl Clone for TransferRecord {
    /// A clone carries exactly the fields of the original.
    fn clone(&self) -> (r: Self)
        ensures
            r == *self,
    {
        proof {
            use_type_invariant(self);
        }
        TransferRecord {
            sender: self.sender,
            receiver: self.receiver,
            amount: self.amount,
            message: self.message.clone(),
            keyword: self.keyword.clone(),
            timestamp: self.timestamp,
        }
    }
}

/// The two's-complement bit image of a signed 64-bit value.
fn i64_bits(x: i64) -> (r: u64)
    ensures
        r == spec_i64_bits(x),
{
    if x >= 0 {
        x as u64
    } else {
        (x as i128 + 0x1_0000_0000_0000_0000i128) as u64
    }
}

/// Appends every byte of `more` to `out`, in order.
fn push_bytes(out: &mut Vec<u8>, more: &[u8])
    ensures
        final(out)@ == old(out)@ + more@,
{
    let mut i: usize = 0;
    while i < more.len()
        invariant
            i <= more@.len(),
            out@ == old(out)@ + more@.subrange(0, i as int),
        decreases more@.len() - i,
    {
        out.push(more[i]);
        proof {
            assert(out@ =~= old(out)@ + more@.subrange(0, i + 1));
        }
        i += 1;
    }
    proof {
        assert(more@.subrange(0, more@.len() as int) =~= more@);
    }
}

} // verus!
