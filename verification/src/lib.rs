//! Persistent-state layer for a secure messaging protocol: stores and
//! arbitrates trust over cryptographic identities and per-peer session state.
//!
//! The crate provides the capability contracts a storage backend must satisfy
//! (identity key store, session store), an in-memory reference implementation
//! of each, and a store context aggregating them into the single handle the
//! cryptographic engine calls through.

pub mod address;
pub mod address_map;
pub mod bytes;
pub mod errors;
pub mod identity_store;
pub mod keys;
pub mod laws;
pub mod session_record;
pub mod session_store;
pub mod store_context;
