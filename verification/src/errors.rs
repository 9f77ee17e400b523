//! Error taxonomy of the ingestion path and its mapping to HTTP statuses.
//!
//! A client-input error means the request itself was bad: a name that fails
//! identifier validation or a payload that is not valid text. A storage
//! failure means the engine refused an operation: opening the store file,
//! provisioning the schema, or inserting the row (which is also where the
//! engine rejects malformed JSON content).

use vstd::prelude::*;

verus! {

/// The storage operation in whose course the engine reported a failure.
#[derive(Clone, Copy, Debug, PartialEq, Eq, Structural)]
pub enum StorageOp {
    /// Opening (and creating if absent) the store file.
    Open,
    /// Issuing the idempotent table-creation statement.
    Provision,
    /// Inserting the timestamped document row.
    Insert,
}

/// One engine failure: the operation that failed and the engine's diagnostic.
#[derive(Debug)]
pub struct StorageFailure {
    pub op: StorageOp,
    pub message: String,
}

/// Why a write request failed.
#[derive(Debug)]
pub enum WriteError {
    /// The database name fails identifier validation.
    InvalidDatabaseName,
    /// The table name fails identifier validation.
    InvalidTableName,
    /// The payload bytes are not valid UTF-8 text.
    PayloadNotText,
    /// The storage engine refused an operation.
    Storage(StorageFailure),
}

/// True of the errors that the caller provoked and an HTTP layer reports as 400.
pub open spec fn is_client_error(e: WriteError) -> bool {
    e matches WriteError::InvalidDatabaseName || e matches WriteError::InvalidTableName
        || e matches WriteError::PayloadNotText
}

/// The HTTP status for a finished write request: 201 on success, 400 on a
/// client-input error, 500 on a storage failure.
pub fn response_status(r: &Result<i64, WriteError>) -> (code: u16)
    ensures
        code == 201 <==> r matches Ok(_),
        code == 400 <==> (r matches Err(e) && is_client_error(*e)),
        code == 500 <==> r matches Err(WriteError::Storage(_)),
{
    match r {
        Ok(_) => 201,
        Err(WriteError::Storage(_)) => 500,
        Err(_) => 400,
    }
}

} // verus!
