use signal_store::address::Address;
use signal_store::errors::StoreError;
use signal_store::identity_store::{IdentityKeyStore, InMemoryIdentityKeyStore};
use signal_store::keys::IdentityKeyPair;

fn test_identity() -> IdentityKeyPair {
    IdentityKeyPair::new(vec![0xAA, 0xBB], vec![0xCC, 0xDD])
}

fn addr(name: &[u8], device_id: u32) -> Address {
    Address::new(name.to_vec(), device_id)
}

#[test]
fn first_contact_follows_policy_when_trusting() {
    let identity = test_identity();
    let store = InMemoryIdentityKeyStore::new(7, &identity);
    assert_eq!(
        store.is_trusted_identity(addr(b"alice", 1), &[0x10, 0x20]),
        Ok(true)
    );
    assert_eq!(store.is_trusted_identity(addr(b"bob", 2), &[]), Ok(true));
}

#[test]
fn first_contact_follows_policy_when_not_trusting() {
    let identity = test_identity();
    let mut store = InMemoryIdentityKeyStore::new(7, &identity);
    store.trust_on_first_use = false;
    assert_eq!(
        store.is_trusted_identity(addr(b"alice", 1), &[0x10, 0x20]),
        Ok(false)
    );
    assert_eq!(store.is_trusted_identity(addr(b"bob", 2), &[]), Ok(false));
}

#[test]
fn saved_key_is_trusted_and_other_keys_are_not() {
    let identity = test_identity();
    let mut store = InMemoryIdentityKeyStore::new(7, &identity);
    assert_eq!(store.save_identity(addr(b"alice", 1), &[0x01, 0x02]), Ok(()));
    assert_eq!(
        store.is_trusted_identity(addr(b"alice", 1), &[0x01, 0x02]),
        Ok(true)
    );
    assert_eq!(
        store.is_trusted_identity(addr(b"alice", 1), &[0x03, 0x04]),
        Ok(false)
    );
    // No partial matching: a prefix of the pinned key is not the pinned key.
    assert_eq!(
        store.is_trusted_identity(addr(b"alice", 1), &[0x01]),
        Ok(false)
    );
}

#[test]
fn save_overwrites_prior_key() {
    let identity = test_identity();
    let mut store = InMemoryIdentityKeyStore::new(7, &identity);
    assert_eq!(store.save_identity(addr(b"alice", 1), &[0x01, 0x02]), Ok(()));
    assert_eq!(store.save_identity(addr(b"alice", 1), &[0x03, 0x04]), Ok(()));
    assert_eq!(
        store.is_trusted_identity(addr(b"alice", 1), &[0x03, 0x04]),
        Ok(true)
    );
    assert_eq!(
        store.is_trusted_identity(addr(b"alice", 1), &[0x01, 0x02]),
        Ok(false)
    );
}

#[test]
fn pinning_is_per_address() {
    let identity = test_identity();
    let mut store = InMemoryIdentityKeyStore::new(7, &identity);
    assert_eq!(store.save_identity(addr(b"alice", 1), &[0x01]), Ok(()));
    // A different device of the same peer is a different address: still
    // governed by the first-use policy.
    assert_eq!(store.is_trusted_identity(addr(b"alice", 2), &[0x02]), Ok(true));
    assert_eq!(store.is_trusted_identity(addr(b"bob", 1), &[0x02]), Ok(true));
    assert_eq!(store.is_trusted_identity(addr(b"alice", 1), &[0x02]), Ok(false));
}

#[test]
fn toggling_policy_keeps_pinned_identities() {
    let identity = test_identity();
    let mut store = InMemoryIdentityKeyStore::new(7, &identity);
    assert_eq!(store.save_identity(addr(b"alice", 1), &[0x01]), Ok(()));
    store.trust_on_first_use = false;
    // The pinned identity still decides for alice; only future first
    // contacts see the new policy.
    assert_eq!(store.is_trusted_identity(addr(b"alice", 1), &[0x01]), Ok(true));
    assert_eq!(store.is_trusted_identity(addr(b"bob", 1), &[0x01]), Ok(false));
}

#[test]
fn local_registration_id_is_stable() {
    let identity = test_identity();
    let mut store = InMemoryIdentityKeyStore::new(42, &identity);
    assert_eq!(store.local_registration_id(), Ok(42));
    assert_eq!(store.save_identity(addr(b"alice", 1), &[0x01]), Ok(()));
    assert_eq!(store.local_registration_id(), Ok(42));
}

#[test]
fn identity_key_pair_returns_local_material() {
    let identity = test_identity();
    let store = InMemoryIdentityKeyStore::new(7, &identity);
    let (public, private) = store.identity_key_pair().unwrap();
    assert_eq!(public, vec![0xAA, 0xBB]);
    assert_eq!(private, vec![0xCC, 0xDD]);
}

#[test]
fn trust_on_first_use_scenario() {
    let identity = test_identity();
    let mut store = InMemoryIdentityKeyStore::new(42, &identity);
    assert!(store.trust_on_first_use);
    assert_eq!(store.local_registration_id(), Ok(42));
    let addr_a = addr(b"peer-a", 1);
    assert_eq!(
        store.is_trusted_identity(addr(b"peer-a", 1), &[0x01, 0x02]),
        Ok(true)
    );
    assert_eq!(store.save_identity(addr_a, &[0x01, 0x02]), Ok(()));
    assert_eq!(
        store.is_trusted_identity(addr(b"peer-a", 1), &[0x01, 0x02]),
        Ok(true)
    );
    assert_eq!(
        store.is_trusted_identity(addr(b"peer-a", 1), &[0x03, 0x04]),
        Ok(false)
    );
}

#[test]
fn explicit_provisioning_scenario() {
    let identity = test_identity();
    let mut store = InMemoryIdentityKeyStore::new(7, &identity);
    store.trust_on_first_use = false;
    let any_key = [0x42, 0x43];
    assert_eq!(
        store.is_trusted_identity(addr(b"peer-b", 1), &any_key),
        Ok(false)
    );
    assert_eq!(store.save_identity(addr(b"peer-b", 1), &any_key), Ok(()));
    assert_eq!(
        store.is_trusted_identity(addr(b"peer-b", 1), &any_key),
        Ok(true)
    );
}

#[test]
fn address_equality_is_exact() {
    let a = addr(b"alice", 1);
    assert!(a.equals(&addr(b"alice", 1)));
    assert!(!a.equals(&addr(b"alice", 2)));
    assert!(!a.equals(&addr(b"alicf", 1)));
    assert!(!a.equals(&addr(b"alic", 1)));
    assert_eq!(a.name(), &b"alice".to_vec());
    assert_eq!(a.device_id(), 1);
    let b = a.clone();
    assert!(a.equals(&b));
}

#[test]
fn repeated_saves_of_one_key_all_observe_it_trusted() {
    // Any interleaving of callers that each pin the same key for the same
    // address and then check it linearizes to a run like this one: every
    // check must observe the key as trusted, however many saves came between.
    let identity = test_identity();
    let mut store = InMemoryIdentityKeyStore::new(7, &identity);
    for _ in 0..16 {
        assert_eq!(store.save_identity(addr(b"alice", 1), &[0x55, 0x66]), Ok(()));
        assert_eq!(
            store.is_trusted_identity(addr(b"alice", 1), &[0x55, 0x66]),
            Ok(true)
        );
    }
}

#[test]
fn store_errors_are_distinguishable() {
    assert_ne!(StoreError::NotFound, StoreError::SerializationFailure);
    assert_ne!(StoreError::NotFound, StoreError::StorageUnavailable);
    assert_ne!(StoreError::NotFound, StoreError::Unknown);
    assert_ne!(StoreError::StorageUnavailable, StoreError::Unknown);
}
