use vstd::prelude::*;

verus! {

/// What a storage operation can fail with.
#[derive(Clone, Copy, Debug, PartialEq, Eq, Structural)]
pub enum StorageError {
    /// A required request field (the key, and for writes the value) is
    /// absent. Raised before any backend call is attempted.
    InvalidRequest,
    /// The credential store or the native plugin bridge failed the
    /// operation; no structured error code is preserved across the boundary.
    BackendError,
}

} // verus!
