//! The Ingestion Writer and the full write pipeline.
//!
//! A write request carries an untrusted database name, an untrusted table
//! name and raw payload bytes. The pipeline validates all three before it
//! touches storage, so a rejected request never creates a store file or a
//! table, then resolves and opens the store, provisions the table shape, and
//! appends one timestamped row. The document and the timestamp travel only
//! through parameter bindings; the engine's native `json` function checks the
//! document's well-formedness at insert time.

use vstd::prelude::*;
use vstd::utf8::{decode_utf8, valid_utf8};

use crate::clock::now_timestamp;
use crate::codec::decode_payload;
use crate::errors::{StorageOp, WriteError};
use crate::names::{check_name, valid_name};
use crate::sql::insert_sql;
use crate::store::{ensure_table, exec_statement, last_rowid, open_store, storage_failure};

verus! {

/// The document text that a payload contributes to its row: exactly the
/// UTF-8 decoding of the payload bytes, nothing added and nothing dropped. A
/// payload that is not valid text yields the client-input error instead, and
/// only such a payload does.
pub fn document_text(payload: &[u8]) -> (r: Result<&str, WriteError>)
    ensures
        r is Ok <==> valid_utf8(payload@),
        r matches Ok(s) ==> s@ == decode_utf8(payload@),
        r matches Err(e) ==> e matches WriteError::PayloadNotText,
{
    match decode_payload(payload) {
        Some(s) => Ok(s),
        None => Err(WriteError::PayloadNotText),
    }
}

/// The named parameter bindings of the insertion statement: the server
/// timestamp bound to `:timestamp` and the document text bound to `:data`,
/// those two and nothing else. Together with the exact statement text this
/// pins the engine's entire input for an insert.
pub fn insert_bindings<'a>(timestamp: &'a str, doc: &'a str) -> (r: Vec<(&'a str, &'a str)>)
    ensures
        r@.len() == 2,
        r@[0].0@ == ":timestamp"@,
        r@[0].1@ == timestamp@,
        r@[1].0@ == ":data"@,
        r@[1].1@ == doc@,
{
    let mut r: Vec<(&'a str, &'a str)> = Vec::new();
    r.push((":timestamp", timestamp));
    r.push((":data", doc));
    r
}

/// The Ingestion Writer: validates the payload as UTF-8 text and appends one
/// row with the given server timestamp to `table`, returning the generated
/// record identifier. The document is passed to the engine's `json` function
/// through a parameter binding, so malformed JSON content is rejected by the
/// engine and surfaces as a storage failure of the insert.
pub fn write_record(
    conn: &rusqlite::Connection,
    table: &str,
    payload: &[u8],
    timestamp: &str,
) -> (r: Result<i64, WriteError>)
    ensures
        r matches Err(WriteError::InvalidTableName) <==> !valid_name(table@),
        r matches Err(WriteError::PayloadNotText) <==> (valid_name(table@) && !valid_utf8(
            payload@,
        )),
        r matches Err(WriteError::Storage(f)) ==> f.op == StorageOp::Insert,
        valid_name(table@) && valid_utf8(payload@) ==> (r matches Ok(_) || r matches Err(
            WriteError::Storage(_),
        )),
{
    if !check_name(table) {
        return Err(WriteError::InvalidTableName);
    }
    let doc = match document_text(payload) {
        Ok(s) => s,
        Err(e) => {
            return Err(e);
        },
    };
    let sql = insert_sql(table);
    let params = insert_bindings(timestamp, doc);
    match exec_statement(conn, sql.as_str(), &params) {
        Ok(_) => Ok(last_rowid(conn)),
        Err(e) => Err(WriteError::Storage(storage_failure(StorageOp::Insert, &e))),
    }
}

/// The whole write operation behind `PUT /{database}/{table}`: validate the
/// names and the payload, resolve and open the store, provision the table,
/// stamp the current time, and append the document as one new row.
///
/// Exactly the listed client errors arise, each on exactly the inputs stated;
/// on fully valid input the result is the new record's identifier or a
/// storage failure, never a client error.
pub fn handle_put(root: &str, db: &str, table: &str, payload: &[u8]) -> (r: Result<
    i64,
    WriteError,
>)
    ensures
        r matches Err(WriteError::InvalidDatabaseName) <==> !valid_name(db@),
        r matches Err(WriteError::InvalidTableName) <==> (valid_name(db@) && !valid_name(table@)),
        r matches Err(WriteError::PayloadNotText) <==> (valid_name(db@) && valid_name(table@)
            && !valid_utf8(payload@)),
        r matches Err(WriteError::Storage(_)) ==> (valid_name(db@) && valid_name(table@)
            && valid_utf8(payload@)),
        valid_name(db@) && valid_name(table@) && valid_utf8(payload@) ==> (r matches Ok(_)
            || r matches Err(WriteError::Storage(_))),
        r matches Ok(_) ==> (valid_name(db@) && valid_name(table@) && valid_utf8(payload@)),
{
    if !check_name(db) {
        return Err(WriteError::InvalidDatabaseName);
    }
    if !check_name(table) {
        return Err(WriteError::InvalidTableName);
    }
    if decode_payload(payload).is_none() {
        return Err(WriteError::PayloadNotText);
    }
    let conn = match open_store(root, db) {
        Ok(c) => c,
        Err(e) => {
            return Err(e);
        },
    };
    if let Err(e) = ensure_table(&conn, table) {
        return Err(e);
    }
    let timestamp = now_timestamp();
    write_record(&conn, table, payload, timestamp.as_str())
}

} // verus!
