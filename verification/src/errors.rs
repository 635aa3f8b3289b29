use vstd::prelude::*;

verus! {

/// Raised when stored contact bytes cannot be decoded back into a typed
/// contact record. A malformed contact means messages to that peer cannot
/// be encrypted, so this error always propagates.
#[derive(Clone, Debug)]
pub enum ContactError {
    /// The bytes do not form a valid serialized contact record.
    BadData(String),
}

/// The error taxonomy of the store: connection/open errors, per-query result
/// errors, serialization failures, contact decoding failures, and an escape
/// hatch for collaborator-raised errors.
#[derive(Clone, Debug)]
pub enum StorageError {
    /// The database connection could not be established.
    DieselConnectError(String),
    /// An individual query failed (constraint violation, not found).
    DieselResultError(String),
    /// The connection pool is exhausted or unavailable.
    PoolError(String),
    /// Wrong encryption key, or the file at the store path is not a database.
    DbInitError(String),
    /// A store-level failure while preparing or applying a mutation.
    Store(String),
    /// A collaborator-raised error, wrapped without reinterpretation.
    ImplementationError(String),
    /// Stored contact bytes failed to decode.
    ContactError(ContactError),
    /// Encoding an opaque blob for storage failed.
    SerializationError,
    /// Any storage failure that fits no other kind.
    Unknown(String),
}

} // verus!
