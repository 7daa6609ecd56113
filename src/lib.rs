//! An encrypted, tamper-evident store for a small ordered list of records.
//!
//! `record` holds the record type and the list operations, `key` the key
//! material and its hexadecimal text form, `envelope` the authenticated
//! encryption envelope written to disk, and `browse` the decisions of the
//! interactive list view.
pub mod record;
pub mod key;
pub mod envelope;
pub mod browse;
