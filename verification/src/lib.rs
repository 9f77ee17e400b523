//! A small ingestion library: it accepts raw JSON documents addressed to a
//! caller-named table inside a caller-named SQLite store, validates the names
//! and the payload, provisions the table schema on first use, and appends the
//! document as a timestamped row.

pub mod clock;
pub mod codec;
pub mod config;
pub mod errors;
pub mod ingest;
pub mod names;
pub mod ping;
pub mod sql;
pub mod store;
