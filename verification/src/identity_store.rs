use vstd::prelude::*;
use crate::address::{Address, AddressV};
use crate::address_map::AddressMap;
use crate::bytes::{bytes_eq, copy_bytes};
use crate::errors::StoreError;
use crate::keys::IdentityKeyPair;

verus! {

/// The single security-critical decision of the store layer: whether
/// `key` may be trusted for `addr`, given the pinned identities `trusted`
/// and the first-use policy.
///
/// If an identity is pinned for `addr`, exactly that key is trusted — no
/// partial matching, no normalization. If none is pinned, the configured
/// first-use policy decides.
pub open spec fn trust_decision(
    trusted: Map<AddressV, Seq<u8>>,
    first_use: bool,
    addr: AddressV,
    key: Seq<u8>,
) -> bool {
    if trusted.contains_key(addr) {
        trusted[addr] == key
    } else {
        first_use
    }
}

/// Capability contract over "who am I" and "who do I trust".
///
/// Any storage backend — in-memory, file-backed, database-backed — must
/// reproduce exactly these semantics: the local identity material is stable,
/// `is_trusted_identity` decides by [`trust_decision`], and `save_identity`
/// pins the given key, replacing any prior entry.
pub trait IdentityKeyStore {
    /// The local device's stable registration identifier.
    spec fn registration_id_spec(&self) -> u32;

    /// The serialized public half of the local identity key pair.
    spec fn identity_public_spec(&self) -> Seq<u8>;

    /// The serialized private half of the local identity key pair.
    spec fn identity_private_spec(&self) -> Seq<u8>;

    /// The pinned identities: at most one trusted key per peer address.
    spec fn trusted_map(&self) -> Map<AddressV, Seq<u8>>;

    /// Whether a peer is trusted the first time it is contacted.
    spec fn first_use_policy(&self) -> bool;

    /// Returns the local device's registration identifier.
    fn local_registration_id(&self) -> (r: Result<u32, StoreError>)
        ensures
            r == Ok::<u32, StoreError>(self.registration_id_spec()),
    ;

    /// Returns the serialized local identity key material, public half first.
    fn identity_key_pair(&self) -> (r: Result<(Vec<u8>, Vec<u8>), StoreError>)
        ensures
            r matches Ok(pair) && pair.0@ == self.identity_public_spec()
                && pair.1@ == self.identity_private_spec(),
    ;

    /// Decides whether `identity_key` is trusted for `address`, by
    /// [`trust_decision`]. Never converts a failure into a trust decision.
    fn is_trusted_identity(&self, address: Address, identity_key: &[u8]) -> (r: Result<
        bool,
        StoreError,
    >)
        ensures
            r == Ok::<bool, StoreError>(
                trust_decision(
                    self.trusted_map(),
                    self.first_use_policy(),
                    address@,
                    identity_key@,
                ),
            ),
    ;

    /// Unconditionally pins `identity_key` as trusted for `addr`, replacing
    /// any prior entry; everything else about the store is unchanged.
    fn save_identity(&mut self, addr: Address, identity_key: &[u8]) -> (r: Result<
        (),
        StoreError,
    >)
        ensures
            r == Ok::<(), StoreError>(()),
            final(self).trusted_map() == old(self).trusted_map().insert(addr@, identity_key@),
            final(self).first_use_policy() == old(self).first_use_policy(),
            final(self).registration_id_spec() == old(self).registration_id_spec(),
            final(self).identity_public_spec() == old(self).identity_public_spec(),
            final(self).identity_private_spec() == old(self).identity_private_spec(),
    ;
}

/// An in-memory [`IdentityKeyStore`]: contract compliance without external
/// persistence, suitable for testing and ephemeral sessions.
#[derive(Debug)]
pub struct InMemoryIdentityKeyStore {
    registration_id: u32,
    identity: IdentityKeyPair,
    trusted_identities: AddressMap,
    /// Should recipients be trusted the first time they are contacted?
    ///
    /// Fixed at construction to trust-on-first-use; may be toggled at
    /// runtime. Toggling does not retroactively alter already-pinned
    /// identities, only future first contacts.
    pub trust_on_first_use: bool,
}

impl InMemoryIdentityKeyStore {
    /// Creates a store for the given registration identifier and local
    /// identity, with no pinned peers and trust-on-first-use enabled.
    pub fn new(registration_id: u32, identity: &IdentityKeyPair) -> (r: InMemoryIdentityKeyStore)
        ensures
            r.registration_id_spec() == registration_id,
            r.identity_public_spec() == identity@.0,
            r.identity_private_spec() == identity@.1,
            r.trusted_map() == Map::<AddressV, Seq<u8>>::empty(),
            r.first_use_policy() == true,
    {
        InMemoryIdentityKeyStore {
            registration_id,
            trust_on_first_use: true,
            identity: identity.clone(),
            trusted_identities: AddressMap::new(),
        }
    }
}

impl IdentityKeyStore for InMemoryIdentityKeyStore {
    closed spec fn registration_id_spec(&self) -> u32 {
        self.registration_id
    }

    closed spec fn identity_public_spec(&self) -> Seq<u8> {
        self.identity@.0
    }

    closed spec fn identity_private_spec(&self) -> Seq<u8> {
        self.identity@.1
    }

    closed spec fn trusted_map(&self) -> Map<AddressV, Seq<u8>> {
        self.trusted_identities@
    }

    closed spec fn first_use_policy(&self) -> bool {
        self.trust_on_first_use
    }

    fn local_registration_id(&self) -> (r: Result<u32, StoreError>) {
        Ok(self.registration_id)
    }

    fn identity_key_pair(&self) -> (r: Result<(Vec<u8>, Vec<u8>), StoreError>) {
        let public = copy_bytes(self.identity.public().as_slice());
        let private = copy_bytes(self.identity.private().as_slice());
        Ok((public, private))
    }

    fn is_trusted_identity(&self, address: Address, identity_key: &[u8]) -> (r: Result<
        bool,
        StoreError,
    >) {
        match self.trusted_identities.get(&address) {
            Some(pinned) => Ok(bytes_eq(pinned.as_slice(), identity_key)),
            None => Ok(self.trust_on_first_use),
        }
    }

    fn save_identity(&mut self, addr: Address, identity_key: &[u8]) -> (r: Result<
        (),
        StoreError,
    >) {
        let pinned = copy_bytes(identity_key);
        self.trusted_identities.insert(addr, pinned);
        Ok(())
    }
}

} // verus!
