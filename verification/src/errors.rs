use vstd::prelude::*;

verus! {

/// Unified error taxonomy of the store layer.
///
/// Errors always propagate to the caller unmodified; the layer never converts
/// an error into an implicit trust/allow decision or a default value.
#[derive(Clone, Copy, Debug, PartialEq, Eq, Structural)]
pub enum StoreError {
    /// The requested session or record does not exist.
    NotFound,
    /// Key or session material could not be encoded or decoded; a fatal,
    /// non-retryable defect in stored state.
    SerializationFailure,
    /// The underlying persistence could not be reached; callers may retry but
    /// must not proceed as if the operation succeeded.
    StorageUnavailable,
    /// Catch-all for unclassified backend failures; still surfaced, never
    /// mapped to a success value.
    Unknown,
}

} // verus!
