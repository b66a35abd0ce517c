//! Identity handles for the parties of a transfer.

use vstd::prelude::*;

verus! {

/// An opaque, fixed-width public identifier for one party.  A handle carries
/// no proof of control by itself; whoever hosts the ledger authenticates the
/// caller and passes the authenticated handle alongside the claimed sender.
#[derive(Clone, Copy, Debug)]
pub struct Identity {
    bytes: [u8; 32],
}

impl View for Identity {
    type V = Seq<u8>;

    closed spec fn view(&self) -> Seq<u8> {
        self.bytes@
    }
}

impl Identity {
    /// Wraps a raw 32-byte public identifier.
    pub fn new(bytes: [u8; 32]) -> (id: Self)
        ensures
            id@ == bytes@,
    {
        Identity { bytes }
    }

    /// The raw bytes of the handle.
    pub fn to_bytes(&self) -> (out: [u8; 32])
        ensures
            out@ == self@,
    {
        self.bytes
    }
}

impl PartialEq for Identity {
    fn eq(&self, other: &Identity) -> (r: bool) {
        let mut i: usize = 0;
        while i < 32
            invariant
                i <= 32,
                forall|j: int| 0 <= j < i ==> self.bytes@[j] == other.bytes@[j],
            decreases 32 - i,
        {
            if self.bytes[i] != other.bytes[i] {
                assert(self.bytes@ != other.bytes@);
                return false;
            }
            i += 1;
        }
        assert(self.bytes@ =~= other.bytes@);
        true
    }
}

impl Eq for Identity {

}

impl vstd::std_specs::cmp::PartialEqSpecImpl for Identity {
    open spec fn obeys_eq_spec() -> bool {
        true
    }

    open spec fn eq_spec(&self, other: &Identity) -> bool {
        self@ == other@
    }
}

} // verus!
