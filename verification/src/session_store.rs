use vstd::prelude::*;
use crate::address::{Address, AddressV};
use crate::address_map::AddressMap;
use crate::bytes::copy_bytes;
use crate::errors::StoreError;
use crate::session_record::SessionRecord;

verus! {

/// What loading the session for `addr` out of the sessions `sessions` must
/// yield: the recorded bytes, or [`StoreError::NotFound`] — never an empty
/// buffer — when no session is recorded.
pub open spec fn session_lookup(
    sessions: Map<AddressV, Seq<u8>>,
    addr: AddressV,
) -> Result<Seq<u8>, StoreError> {
    if sessions.contains_key(addr) {
        Ok(sessions[addr])
    } else {
        Err(StoreError::NotFound)
    }
}

/// Capability contract over per-peer session durability.
///
/// At most one session is recorded per address; storing replaces
/// (last-write-wins, no merge), loading a missing session is an error rather
/// than an empty result, and deletion is idempotent.
pub trait SessionStore {
    /// The recorded sessions: at most one serialized blob per peer address.
    spec fn sessions(&self) -> Map<AddressV, Seq<u8>>;

    /// Whether a session is recorded for `address`.
    fn contains_session(&self, address: &Address) -> (r: Result<bool, StoreError>)
        ensures
            r == Ok::<bool, StoreError>(self.sessions().contains_key(address@)),
    ;

    /// Returns the session recorded for `address`, by [`session_lookup`]:
    /// fails with [`StoreError::NotFound`] exactly when none is recorded.
    fn load_session(&self, address: &Address) -> (r: Result<SessionRecord, StoreError>)
        ensures
            (match r {
                Ok(record) => session_lookup(self.sessions(), address@) == Ok::<
                    Seq<u8>,
                    StoreError,
                >(record@),
                Err(e) => session_lookup(self.sessions(), address@) == Err::<
                    Seq<u8>,
                    StoreError,
                >(e),
            }),
    ;

    /// Records `record` for `address`, replacing any existing session.
    fn store_session(&mut self, address: Address, record: SessionRecord) -> (r: Result<
        (),
        StoreError,
    >)
        ensures
            r == Ok::<(), StoreError>(()),
            final(self).sessions() == old(self).sessions().insert(address@, record@),
    ;

    /// Deletes the session recorded for `address`; deleting a non-existent
    /// session is not an error.
    fn delete_session(&mut self, address: &Address) -> (r: Result<(), StoreError>)
        ensures
            r == Ok::<(), StoreError>(()),
            final(self).sessions() == old(self).sessions().remove(address@),
    ;
}

/// An in-memory [`SessionStore`]: contract compliance without external
/// persistence, suitable for testing and ephemeral sessions.
#[derive(Debug)]
pub struct InMemorySessionStore {
    records: AddressMap,
}

impl InMemorySessionStore {
    /// Creates a store with no recorded sessions.
    pub fn new() -> (r: InMemorySessionStore)
        ensures
            r.sessions() == Map::<AddressV, Seq<u8>>::empty(),
    {
        InMemorySessionStore { records: AddressMap::new() }
    }
}

impl SessionStore for InMemorySessionStore {
    closed spec fn sessions(&self) -> Map<AddressV, Seq<u8>> {
        self.records@
    }

    fn contains_session(&self, address: &Address) -> (r: Result<bool, StoreError>) {
        Ok(self.records.contains(address))
    }

    fn load_session(&self, address: &Address) -> (r: Result<SessionRecord, StoreError>) {
        match self.records.get(address) {
            Some(bytes) => Ok(SessionRecord::new(copy_bytes(bytes.as_slice()))),
            None => Err(StoreError::NotFound),
        }
    }

    fn store_session(&mut self, address: Address, record: SessionRecord) -> (r: Result<
        (),
        StoreError,
    >) {
        let bytes = record.into_bytes();
        self.records.insert(address, bytes);
        Ok(())
    }

    fn delete_session(&mut self, address: &Address) -> (r: Result<(), StoreError>) {
        self.records.remove(address);
        Ok(())
    }
}

} // verus!
