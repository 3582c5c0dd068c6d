use vstd::prelude::*;
use crate::address::AddressV;
use crate::errors::StoreError;
use crate::identity_store::trust_decision;
use crate::session_store::session_lookup;

verus! {

/// For an address with no pinned identity, the trust decision is the
/// configured first-use policy, whatever key is offered.
pub proof fn law_first_contact_uses_policy(
    trusted: Map<AddressV, Seq<u8>>,
    first_use: bool,
    addr: AddressV,
    key: Seq<u8>,
)
    requires
        !trusted.contains_key(addr),
    ensures
        trust_decision(trusted, first_use, addr, key) == first_use,
{
}

/// Pinning a key makes exactly that key trusted for the address: after
/// saving `key1` for `addr`, `key1` is trusted and any different `key2` is
/// rejected, whatever the policy.
pub proof fn law_pinned_key_decides(
    trusted: Map<AddressV, Seq<u8>>,
    first_use: bool,
    addr: AddressV,
    key1: Seq<u8>,
    key2: Seq<u8>,
)
    requires
        key1 != key2,
    ensures
        trust_decision(trusted.insert(addr, key1), first_use, addr, key1),
        !trust_decision(trusted.insert(addr, key1), first_use, addr, key2),
{
}

/// A key just saved for an address is observed as trusted by the very next
/// check, whatever was pinned before: no lost update between a save and the
/// check that follows it.
pub proof fn law_saved_key_is_trusted(
    trusted: Map<AddressV, Seq<u8>>,
    first_use: bool,
    addr: AddressV,
    key: Seq<u8>,
)
    ensures
        trust_decision(trusted.insert(addr, key), first_use, addr, key),
{
}

/// Saving is idempotent-overwrite: saving `key1` then `key2` for the same
/// address leaves the pinned identities exactly as saving `key2` alone
/// would, so only `key2` remains trusted for that address.
pub proof fn law_save_overwrites(
    trusted: Map<AddressV, Seq<u8>>,
    first_use: bool,
    addr: AddressV,
    key1: Seq<u8>,
    key2: Seq<u8>,
    probe: Seq<u8>,
)
    ensures
        trusted.insert(addr, key1).insert(addr, key2) == trusted.insert(addr, key2),
        trust_decision(trusted.insert(addr, key1).insert(addr, key2), first_use, addr, probe)
            == (probe == key2),
{
    assert(trusted.insert(addr, key1).insert(addr, key2) =~= trusted.insert(addr, key2));
}

/// Loading a session fails with [`StoreError::NotFound`] exactly when no
/// session is recorded for the address: the load result and the existence
/// probe never disagree.
pub proof fn law_not_found_iff_no_session(sessions: Map<AddressV, Seq<u8>>, addr: AddressV)
    ensures
        (session_lookup(sessions, addr) == Err::<Seq<u8>, StoreError>(StoreError::NotFound))
            <==> !sessions.contains_key(addr),
{
}

/// Storing a session twice for the same address is last-write-wins: a load
/// after storing `s1` then `s2` yields exactly `s2`.
pub proof fn law_last_write_wins(
    sessions: Map<AddressV, Seq<u8>>,
    addr: AddressV,
    s1: Seq<u8>,
    s2: Seq<u8>,
)
    ensures
        session_lookup(sessions.insert(addr, s1).insert(addr, s2), addr) == Ok::<
            Seq<u8>,
            StoreError,
        >(s2),
{
}

/// Deleting the session of an address that has none leaves the recorded
/// sessions unchanged: deletion is idempotent and never an error.
pub proof fn law_delete_without_session(sessions: Map<AddressV, Seq<u8>>, addr: AddressV)
    requires
        !sessions.contains_key(addr),
    ensures
        sessions.remove(addr) == sessions,
{
    assert(sessions.remove(addr) =~= sessions);
}

} // verus!
