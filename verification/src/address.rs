use vstd::prelude::*;
use crate::bytes::bytes_eq;

verus! {

/// Mathematical value of an [`Address`]: the peer's name as a byte sequence
/// plus the device index.
#[verifier::ext_equal]
pub ghost struct AddressV {
    pub name: Seq<u8>,
    pub device_id: u32,
}

/// Identifies a remote peer: an immutable name plus a device index.
///
/// Used as the lookup key everywhere in the store layer. Two addresses are
/// equal iff both fields match.
#[derive(Debug)]
pub struct Address {
    name: Vec<u8>,
    device_id: u32,
}

impl View for Address {
    type V = AddressV;

    closed spec fn view(&self) -> AddressV {
        AddressV { name: self.name@, device_id: self.device_id }
    }
}

impl Address {
    /// Builds the address of device `device_id` of the peer called `name`.
    pub fn new(name: Vec<u8>, device_id: u32) -> (r: Address)
        ensures
            r@ == (AddressV { name: name@, device_id }),
    {
        Address { name, device_id }
    }

    /// The peer's name.
    pub fn name(&self) -> (r: &Vec<u8>)
        ensures
            r@ == self@.name,
    {
        &self.name
    }

    /// The peer's device index.
    pub fn device_id(&self) -> (r: u32)
        ensures
            r == self@.device_id,
    {
        self.device_id
    }

    /// Decides whether two addresses identify the same peer device: true iff
    /// both the name and the device index match.
    pub fn equals(&self, other: &Address) -> (r: bool)
        ensures
            r == (self@ == other@),
    {
        let r = self.device_id == other.device_id
            && bytes_eq(self.name.as_slice(), other.name.as_slice());
        proof {
            if r {
                assert(self@ =~= other@);
            }
        }
        r
    }
}

impl Clone for Address {
    fn clone(&self) -> (r: Self)
        ensures
            r@ == self@,
    {
        Address { name: crate::bytes::copy_bytes(self.name.as_slice()), device_id: self.device_id }
    }
}

} // verus!
