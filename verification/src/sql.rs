//! The two statements the ingestion path sends to the storage engine.
//!
//! A table name reaches a statement only after it has passed the safelist in
//! `names`, and it is the only caller-controlled text that ever does: the
//! timestamp and the document travel exclusively through named parameter
//! bindings, never through statement text.

use vstd::prelude::*;

verus! {

/// The idempotent provisioning statement for `table`: create the three-column
/// shape (identifier, timestamp, document text) if the table is absent, touch
/// nothing if it exists. The statement is a function of the table name alone.
pub open spec fn create_table_sql_of(table: Seq<char>) -> Seq<char> {
    "CREATE TABLE IF NOT EXISTS "@ + table
        + " (id INTEGER PRIMARY KEY, timestamp DATETIME NOT NULL, data TEXT NOT NULL);"@
}

/// The insertion statement for `table`: one new row from the `:timestamp` and
/// `:data` parameters, the document checked and normalized by the engine's
/// native `json` function. The statement is a function of the table name
/// alone; no payload content ever appears in it.
pub open spec fn insert_sql_of(table: Seq<char>) -> Seq<char> {
    "INSERT INTO "@ + table + " (timestamp, data) VALUES (:timestamp, json(:data));"@
}

/// Builds the provisioning statement for `table`.
pub fn create_table_sql(table: &str) -> (s: String)
    ensures
        s@ == create_table_sql_of(table@),
{
    let mut s = "CREATE TABLE IF NOT EXISTS ".to_owned();
    s.append(table);
    s.append(" (id INTEGER PRIMARY KEY, timestamp DATETIME NOT NULL, data TEXT NOT NULL);");
    s
}

/// Builds the insertion statement for `table`.
pub fn insert_sql(table: &str) -> (s: String)
    ensures
        s@ == insert_sql_of(table@),
{
    let mut s = "INSERT INTO ".to_owned();
    s.append(table);
    s.append(" (timestamp, data) VALUES (:timestamp, json(:data));");
    s
}

} // verus!
