//! Verified core of a chunked-transfer client for a remote object store.
//!
//! The crate holds the logic of the transfer engine: splitting a file into
//! byte ranges, driving a multipart upload with a bounded number of parts in
//! flight, collecting part results for the completion call, streaming a
//! download in order, and the decisions around existence checks, errors and
//! configuration. Network and file I/O stay outside; the engine is driven
//! through plain values (status codes, response bodies, byte chunks).

pub mod config;
pub mod download;
pub mod errors;
pub mod json;
pub mod objects;
pub mod progress;
pub mod ranges;
pub mod upload;
pub mod urls;
