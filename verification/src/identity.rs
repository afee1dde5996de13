use vstd::prelude::*;

use crate::crypto::ct_eq;

verus! {

/// An opaque, fixed-format address: the unit of authorization.
///
/// The core never looks inside an identity; it only stores identities
/// and compares them for equality.  The host's canonicalization of
/// human-readable addresses happens before an identity reaches the
/// core.
pub struct Identity {
    bytes: Vec<u8>,
}

impl View for Identity {
    type V = Seq<u8>;

    closed spec fn view(&self) -> Seq<u8> {
        self.bytes@
    }
}

impl Identity {
    /// Wraps an already-canonical address.
    pub fn new(bytes: Vec<u8>) -> (r: Identity)
        ensures
            r@ == bytes@,
    {
        Identity { bytes }
    }

    /// The canonical address bytes.
    pub fn as_bytes(&self) -> (r: &Vec<u8>)
        ensures
            r@ == self@,
    {
        &self.bytes
    }

    /// An exact copy of the identity.
    pub fn duplicate(&self) -> (r: Identity)
        ensures
            r@ == self@,
    {
        Identity { bytes: vstd::slice::slice_to_vec(self.bytes.as_slice()) }
    }

    /// Whether two identities are the same address.
    pub fn same(&self, other: &Identity) -> (r: bool)
        ensures
            r == (self@ == other@),
    {
        ct_eq(&self.bytes, &other.bytes)
    }
}

} // verus!
