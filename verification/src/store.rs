//! The storage engine boundary: opening a store and provisioning a table.
//!
//! Every call into the engine goes through one of the trusted wrappers here;
//! everything around them — name validation, path resolution, statement
//! construction, error classification — is verified.

use vstd::prelude::*;

use crate::errors::{StorageFailure, StorageOp, WriteError};
use crate::names::{check_name, store_path, valid_name};
use crate::sql::create_table_sql;

verus! {

#[verifier::external_type_specification]
#[verifier::external_body]
pub struct ExConnection(rusqlite::Connection);

#[verifier::external_type_specification]
#[verifier::external_body]
pub struct ExSqlError(rusqlite::Error);

/// Relies on rusqlite's `Connection::open`: opens a connection to the SQLite
/// store at `path`, creating the file if it is absent, and fails on an I/O or
/// engine error. What comes back depends on the file system, so nothing is
/// promised of the outcome.
#[verifier::external_body]
pub(crate) fn open_connection(path: &str) -> Result<rusqlite::Connection, rusqlite::Error> {
    rusqlite::Connection::open(path)
}

/// Relies on rusqlite's `Connection::execute`: prepares the single statement
/// `sql`, binds the named parameters to it, runs it, and reports how many
/// rows changed. The outcome depends on the state of the store, so nothing
/// is promised of it.
#[verifier::external_body]
pub(crate) fn exec_statement(
    conn: &rusqlite::Connection,
    sql: &str,
    params: &Vec<(&str, &str)>,
) -> Result<usize, rusqlite::Error> {
    conn.execute(sql, params.as_slice())
}

/// Relies on rusqlite's `Connection::last_insert_rowid`: the rowid of the
/// most recent successful INSERT on this connection. The value depends on the
/// store, so nothing is promised of it.
#[verifier::external_body]
pub(crate) fn last_rowid(conn: &rusqlite::Connection) -> i64 {
    conn.last_insert_rowid()
}

/// Relies on rusqlite's `Display` impl for `Error` to render the engine's
/// diagnostic as text.
#[verifier::external_body]
pub(crate) fn error_text(e: &rusqlite::Error) -> String {
    format!("{e}")
}

/// Wraps an engine error as a failure of the given storage operation.
pub(crate) fn storage_failure(op: StorageOp, e: &rusqlite::Error) -> (f: StorageFailure)
    ensures
        f.op == op,
{
    StorageFailure { op, message: error_text(e) }
}

/// The Store Locator: validates the untrusted database name, resolves it to
/// its store path under `root`, and opens (creating if absent) the store.
pub fn open_store(root: &str, db: &str) -> (r: Result<rusqlite::Connection, WriteError>)
    ensures
        r matches Err(WriteError::InvalidDatabaseName) <==> !valid_name(db@),
        r matches Err(WriteError::Storage(f)) ==> f.op == StorageOp::Open,
        valid_name(db@) ==> (r matches Ok(_) || r matches Err(WriteError::Storage(_))),
{
    if !check_name(db) {
        return Err(WriteError::InvalidDatabaseName);
    }
    let path = store_path(root, db);
    match open_connection(path.as_str()) {
        Ok(conn) => Ok(conn),
        Err(e) => Err(WriteError::Storage(storage_failure(StorageOp::Open, &e))),
    }
}

/// The Schema Provisioner: validates the untrusted table name and issues the
/// idempotent three-column creation statement. Safe to call on every request:
/// an existing table is never inspected or altered.
pub fn ensure_table(conn: &rusqlite::Connection, table: &str) -> (r: Result<(), WriteError>)
    ensures
        r matches Err(WriteError::InvalidTableName) <==> !valid_name(table@),
        r matches Err(WriteError::Storage(f)) ==> f.op == StorageOp::Provision,
        valid_name(table@) ==> (r matches Ok(_) || r matches Err(WriteError::Storage(_))),
{
    if !check_name(table) {
        return Err(WriteError::InvalidTableName);
    }
    let sql = create_table_sql(table);
    let params: Vec<(&str, &str)> = Vec::new();
    match exec_statement(conn, sql.as_str(), &params) {
        Ok(_) => Ok(()),
        Err(e) => Err(WriteError::Storage(storage_failure(StorageOp::Provision, &e))),
    }
}

} // verus!
