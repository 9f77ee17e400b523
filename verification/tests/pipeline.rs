//! Tests of the write pipeline against real SQLite stores. Each test uses its
//! own store file under /tmp and asserts on row-count deltas, so the stores
//! may persist between runs.

use data_receiver::errors::{response_status, StorageOp, WriteError};
use data_receiver::ingest::handle_put;
use rusqlite::Connection;

const ROOT: &str = "/tmp";

fn open(db: &str) -> Connection {
    Connection::open(format!("{ROOT}/{db}.db")).unwrap()
}

fn row_count_or_zero(db: &str, table: &str) -> i64 {
    let conn = open(db);
    conn.query_row(&format!("SELECT COUNT(*) FROM {table}"), [], |r| r.get(0))
        .unwrap_or(0)
}

fn table_count(db: &str, table: &str) -> i64 {
    let conn = open(db);
    conn.query_row(
        "SELECT COUNT(*) FROM sqlite_master WHERE type = 'table' AND name = ?1",
        [table],
        |r| r.get(0),
    )
    .unwrap()
}

fn table_schema(db: &str, table: &str) -> String {
    let conn = open(db);
    conn.query_row(
        "SELECT sql FROM sqlite_master WHERE type = 'table' AND name = ?1",
        [table],
        |r| r.get(0),
    )
    .unwrap()
}

fn stored_document(db: &str, table: &str, id: i64) -> (String, String) {
    let conn = open(db);
    conn.query_row(
        &format!("SELECT timestamp, data FROM {table} WHERE id = ?1"),
        [id],
        |r| Ok((r.get(0)?, r.get(1)?)),
    )
    .unwrap()
}

#[test]
fn test_create_data() {
    // The engine accepts this relaxed JSON form, so the write succeeds.
    let data = "{'actix test': true, 'timestamp': 'timestamp'}";
    let before = row_count_or_zero("test", "test");
    let r = handle_put(ROOT, "test", "test", data.as_bytes());
    assert_eq!(response_status(&r), 201);
    assert_eq!(row_count_or_zero("test", "test"), before + 1);
}

#[test]
fn write_creates_exactly_one_row() {
    let payload = "{\"item\": \"pen\", \"qty\": 3}";
    let before = row_count_or_zero("dr_one", "orders");
    let t0 = chrono::Utc::now().to_string();
    let r = handle_put(ROOT, "dr_one", "orders", payload.as_bytes());
    let t1 = chrono::Utc::now().to_string();
    let id = r.unwrap();
    assert_eq!(row_count_or_zero("dr_one", "orders"), before + 1);

    let (ts, data) = stored_document("dr_one", "orders", id);
    // The stored document is the engine's normalized form of the payload:
    // semantically equal to what was sent.
    let conn = open("dr_one");
    let normalized: String = conn
        .query_row("SELECT json(?1)", [payload], |row| row.get(0))
        .unwrap();
    assert_eq!(data, normalized);
    // The recorded timestamp falls within the test's execution window,
    // compared at whole-second precision.
    assert!(t0[..19] <= ts[..19] && ts[..19] <= t1[..19]);
}

#[test]
fn test_idempotent_provisioning() {
    let before = row_count_or_zero("dr_twice", "events");
    let r1 = handle_put(ROOT, "dr_twice", "events", b"{\"n\":1}");
    let schema_after_first = table_schema("dr_twice", "events");
    let r2 = handle_put(ROOT, "dr_twice", "events", b"{\"n\":2}");
    let schema_after_second = table_schema("dr_twice", "events");

    let id1 = r1.unwrap();
    let id2 = r2.unwrap();
    assert_ne!(id1, id2);
    assert_eq!(schema_after_first, schema_after_second);
    assert_eq!(table_count("dr_twice", "events"), 1);
    assert_eq!(row_count_or_zero("dr_twice", "events"), before + 2);
}

#[test]
fn malformed_payload_is_rejected_without_a_write() {
    // Not valid UTF-8: rejected before storage is touched, so the table is
    // never created.
    let r = handle_put(ROOT, "dr_untext", "never_made", &[0xff, 0xfe, 0xfd]);
    assert!(matches!(r, Err(WriteError::PayloadNotText)));
    assert_eq!(response_status(&r), 400);
    assert_eq!(table_count("dr_untext", "never_made"), 0);
}

#[test]
fn malformed_payload_leaves_existing_rows_alone() {
    let ok = handle_put(ROOT, "dr_untext2", "rows", b"{\"k\":true}");
    assert!(ok.is_ok());
    let count = row_count_or_zero("dr_untext2", "rows");
    let r = handle_put(ROOT, "dr_untext2", "rows", &[0x80]);
    assert!(matches!(r, Err(WriteError::PayloadNotText)));
    assert_eq!(row_count_or_zero("dr_untext2", "rows"), count);
}

#[test]
fn malformed_json_is_rejected_by_the_engine() {
    // Valid text but not valid JSON in any form the engine accepts: the
    // insert fails and the row count stays unchanged; the provisioned table
    // remains, an accepted partial state.
    let before = row_count_or_zero("dr_badjson", "docs");
    let r = handle_put(ROOT, "dr_badjson", "docs", b"[1, 2,");
    match &r {
        Err(WriteError::Storage(f)) => {
            assert_eq!(f.op, StorageOp::Insert);
            assert!(!f.message.is_empty());
        }
        other => panic!("expected a storage failure, got {other:?}"),
    }
    assert_eq!(response_status(&r), 500);
    assert_eq!(row_count_or_zero("dr_badjson", "docs"), before);
    assert_eq!(table_count("dr_badjson", "docs"), 1);
}

#[test]
fn n_writes_make_n_distinct_rows() {
    // Every request opens its own handle to the same store, as concurrent
    // requests do; no write is lost and every row gets its own identifier.
    let n = 8;
    let before = row_count_or_zero("dr_many", "t");
    let mut ids = Vec::new();
    for i in 0..n {
        let payload = format!("{{\"n\": {i}}}");
        let r = handle_put(ROOT, "dr_many", "t", payload.as_bytes());
        ids.push(r.unwrap());
    }
    assert_eq!(row_count_or_zero("dr_many", "t"), before + n);
    let mut sorted = ids.clone();
    sorted.sort();
    sorted.dedup();
    assert_eq!(sorted.len(), ids.len());
}

#[test]
fn example_scenario_shop_orders() {
    let r = handle_put(ROOT, "shop", "orders", b"{\"item\":\"pen\",\"qty\":3}");
    assert_eq!(response_status(&r), 201);
    let id = r.unwrap();
    let (_, data) = stored_document("shop", "orders", id);
    assert_eq!(data, "{\"item\":\"pen\",\"qty\":3}");
}

#[test]
fn invalid_names_are_client_errors() {
    let r = handle_put(ROOT, "bad/name", "t", b"{}");
    assert!(matches!(r, Err(WriteError::InvalidDatabaseName)));
    assert_eq!(response_status(&r), 400);

    let r = handle_put(ROOT, "db", "or;ders", b"{}");
    assert!(matches!(r, Err(WriteError::InvalidTableName)));
    assert_eq!(response_status(&r), 400);

    let r = handle_put(ROOT, "", "t", b"{}");
    assert!(matches!(r, Err(WriteError::InvalidDatabaseName)));
}

#[test]
fn unopenable_store_is_a_storage_error() {
    let r = handle_put("/tmp/no_such_root_data_receiver", "d", "t", b"{\"a\":1}");
    match r {
        Err(WriteError::Storage(f)) => {
            assert_eq!(f.op, StorageOp::Open);
            assert!(!f.message.is_empty());
        }
        other => panic!("expected an open failure, got {other:?}"),
    }
}
