//! Error taxonomy of the transaction recorder.

use vstd::prelude::*;

verus! {

/// Why a `record_transfer` call was rejected.  Every kind is a local,
/// synchronous result; the recorder never retries internally and a rejected
/// call leaves the ledger untouched.
#[derive(Clone, Copy, Debug, PartialEq, Eq, Structural)]
pub enum RecordError {
    /// The caller does not control the claimed sender identity.
    Unauthorized,
    /// The store is already at its configured maximum record count.
    CapacityExceeded,
    /// A text field exceeds the per-field serialization byte budget.
    FieldTooLong,
    /// The backing medium failed; no partial state is left behind.
    StorageFault,
}

impl RecordError {
    /// A short description of the error kind.
    pub fn describe(&self) -> (s: &'static str)
        ensures
            self is Unauthorized ==> s@ == "caller does not control the sender identity"@,
            self is CapacityExceeded ==> s@ == "store is at its maximum record count"@,
            self is FieldTooLong ==> s@ == "text field exceeds its byte budget"@,
            self is StorageFault ==> s@ == "backing storage failed"@,
    {
        match self {
            RecordError::Unauthorized => "caller does not control the sender identity",
            RecordError::CapacityExceeded => "store is at its maximum record count",
            RecordError::FieldTooLong => "text field exceeds its byte budget",
            RecordError::StorageFault => "backing storage failed",
        }
    }
}

} // verus!
