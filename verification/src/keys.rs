use vstd::prelude::*;
use crate::bytes::copy_bytes;

verus! {

/// The local device's long-term identity key pair, held as the serialized
/// key material the cryptographic layer produced.
///
/// Exactly one instance exists per local device; it is created at store
/// construction, lives for the store's entire lifetime and is never mutated.
/// The store layer never interprets the bytes.
#[derive(Debug)]
pub struct IdentityKeyPair {
    public_key: Vec<u8>,
    private_key: Vec<u8>,
}

impl View for IdentityKeyPair {
    type V = (Seq<u8>, Seq<u8>);

    closed spec fn view(&self) -> (Seq<u8>, Seq<u8>) {
        (self.public_key@, self.private_key@)
    }
}

impl IdentityKeyPair {
    /// Wraps the serialized public and private key material of the local
    /// identity.
    pub fn new(public_key: Vec<u8>, private_key: Vec<u8>) -> (r: IdentityKeyPair)
        ensures
            r@ == (public_key@, private_key@),
    {
        IdentityKeyPair { public_key, private_key }
    }

    /// The serialized public key.
    pub fn public(&self) -> (r: &Vec<u8>)
        ensures
            r@ == self@.0,
    {
        &self.public_key
    }

    /// The serialized private key.
    pub fn private(&self) -> (r: &Vec<u8>)
        ensures
            r@ == self@.1,
    {
        &self.private_key
    }
}

impl Clone for IdentityKeyPair {
    fn clone(&self) -> (r: Self)
        ensures
            r@ == self@,
    {
        IdentityKeyPair {
            public_key: copy_bytes(self.public_key.as_slice()),
            private_key: copy_bytes(self.private_key.as_slice()),
        }
    }
}

} // verus!
