use vstd::prelude::*;
use crate::address::Address;
use crate::errors::StoreError;
use crate::identity_store::IdentityKeyStore;
use crate::session_record::SessionRecord;
use crate::session_store::{session_lookup, SessionStore};

verus! {

/// The single entry point the cryptographic engine calls through: binds the
/// configured identity and session stores into one handle and delegates to
/// them.
///
/// The context exclusively owns the concrete store instances it wraps;
/// callers never obtain direct mutable access to a store's internal mapping.
#[derive(Debug)]
pub struct StoreContext<I: IdentityKeyStore, S: SessionStore> {
    identity_store: I,
    session_store: S,
}

impl<I: IdentityKeyStore, S: SessionStore> StoreContext<I, S> {
    /// The identity store the context was built over.
    pub closed spec fn identity_store_spec(&self) -> I {
        self.identity_store
    }

    /// The session store the context was built over.
    pub closed spec fn session_store_spec(&self) -> S {
        self.session_store
    }

    /// Binds the given concrete stores into a context.
    pub fn new(identity_store: I, session_store: S) -> (r: StoreContext<I, S>)
        ensures
            r.identity_store_spec() == identity_store,
            r.session_store_spec() == session_store,
    {
        StoreContext { identity_store, session_store }
    }

    /// Get the registration ID, delegating to the identity store.
    pub fn registration_id(&self) -> (r: Result<u32, StoreError>)
        ensures
            r == Ok::<u32, StoreError>(self.identity_store_spec().registration_id_spec()),
    {
        self.identity_store.local_registration_id()
    }

    /// Does this store already contain a session with the provided recipient?
    /// Delegates to the session store.
    pub fn contains_session(&self, addr: &Address) -> (r: Result<bool, StoreError>)
        ensures
            r == Ok::<bool, StoreError>(
                self.session_store_spec().sessions().contains_key(addr@),
            ),
    {
        self.session_store.contains_session(addr)
    }

    /// Load the session corresponding to the provided recipient, delegating
    /// to the session store.
    pub fn load_session(&self, addr: &Address) -> (r: Result<SessionRecord, StoreError>)
        ensures
            (match r {
                Ok(record) => session_lookup(self.session_store_spec().sessions(), addr@) == Ok::<
                    Seq<u8>,
                    StoreError,
                >(record@),
                Err(e) => session_lookup(self.session_store_spec().sessions(), addr@) == Err::<
                    Seq<u8>,
                    StoreError,
                >(e),
            }),
    {
        self.session_store.load_session(addr)
    }

    /// A shared view of the identity store.
    pub fn identity_store(&self) -> (r: &I)
        ensures
            r == self.identity_store_spec(),
    {
        &self.identity_store
    }

    /// A shared view of the session store.
    pub fn session_store(&self) -> (r: &S)
        ensures
            r == self.session_store_spec(),
    {
        &self.session_store
    }
}

} // verus!
