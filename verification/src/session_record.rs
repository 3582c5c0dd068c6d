use vstd::prelude::*;
use crate::bytes::copy_bytes;

verus! {

/// Opaque serialized session state for one peer address: the ratchet state
/// the cryptographic engine hands to the store and reads back.
///
/// The store layer never interprets the bytes.
#[derive(Debug)]
pub struct SessionRecord {
    bytes: Vec<u8>,
}

impl View for SessionRecord {
    type V = Seq<u8>;

    closed spec fn view(&self) -> Seq<u8> {
        self.bytes@
    }
}

impl SessionRecord {
    /// Wraps a serialized session buffer.
    pub fn new(bytes: Vec<u8>) -> (r: SessionRecord)
        ensures
            r@ == bytes@,
    {
        SessionRecord { bytes }
    }

    /// The serialized session state.
    pub fn bytes(&self) -> (r: &Vec<u8>)
        ensures
            r@ == self@,
    {
        &self.bytes
    }

    /// Unwraps the serialized session state.
    pub fn into_bytes(self) -> (r: Vec<u8>)
        ensures
            r@ == self@,
    {
        self.bytes
    }
}

impl Clone for SessionRecord {
    fn clone(&self) -> (r: Self)
        ensures
            r@ == self@,
    {
        SessionRecord { bytes: copy_bytes(self.bytes.as_slice()) }
    }
}

} // verus!
