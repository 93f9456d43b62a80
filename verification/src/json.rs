//! Reading the store's JSON response bodies.
//!
//! The store answers the sequential calls with small JSON documents; the
//! parsing itself is done by `serde_json`, so each body shape has one trusted
//! reader whose result is named: a fixed function of the body bytes alone.
//! Everything decided from a parsed value is verified against these names.

use vstd::prelude::*;

verus! {

/// One object in a listing answer: its key, its size in bytes, and its
/// integrity token.
#[derive(Clone, Debug)]
pub struct ListEntry {
    pub key: String,
    pub size: u64,
    pub etag: String,
}

/// The plain content of a `ListEntry`.
pub open spec fn list_entry_view(e: ListEntry) -> (Seq<char>, u64, Seq<char>) {
    (e.key@, e.size, e.etag@)
}

/// The plain content of a sequence of `ListEntry` values.
pub open spec fn list_entries_view(es: Seq<ListEntry>) -> Seq<(Seq<char>, u64, Seq<char>)> {
    es.map(|i: int, e: ListEntry| list_entry_view(e))
}

/// The `uploadId` string of a start-of-upload answer, if the bytes hold a
/// JSON object with one; a fixed function of the bytes.
pub uninterp spec fn parsed_upload_id(body: Seq<u8>) -> Option<Seq<char>>;

/// The `etag` string of a part-upload answer, if the bytes hold a JSON
/// object with both an `etag` and a `partNumber`; a fixed function of the
/// bytes.
pub uninterp spec fn parsed_part_etag(body: Seq<u8>) -> Option<Seq<char>>;

/// Whether the bytes hold some well-formed JSON document; a fixed function
/// of the bytes.
pub uninterp spec fn is_json_document(body: Seq<u8>) -> bool;

/// The entries of a listing answer, if the bytes hold a JSON array of
/// objects with `key`, `size` and `etag` fields; a fixed function of the
/// bytes.
pub uninterp spec fn parsed_listing(body: Seq<u8>) -> Option<Seq<(Seq<char>, u64, Seq<char>)>>;

/// The plain content of an optional string.
pub open spec fn opt_string_view(o: Option<String>) -> Option<Seq<char>> {
    match o {
        Some(s) => Some(s@),
        None => None,
    }
}

/// Relies on `serde_json::from_slice` and `serde_json::Value::{get, as_str}`:
/// reads the `uploadId` field of a JSON object; the result depends on the
/// bytes alone.
#[verifier::external_body]
pub(crate) fn read_upload_id(body: &[u8]) -> (r: Option<String>)
    ensures
        opt_string_view(r) == parsed_upload_id(body@),
{
    let v: serde_json::Value = serde_json::from_slice(body).ok()?;
    Some(v.get("uploadId")?.as_str()?.to_string())
}

/// Relies on `serde_json::from_slice` and `serde_json::Value::{get, as_str,
/// as_u64}`: reads the `etag` field of a JSON object that also carries a
/// numeric `partNumber`; the result depends on the bytes alone. The reported
/// part number is dropped: the caller's own index is authoritative.
#[verifier::external_body]
pub(crate) fn read_part_etag(body: &[u8]) -> (r: Option<String>)
    ensures
        opt_string_view(r) == parsed_part_etag(body@),
{
    let v: serde_json::Value = serde_json::from_slice(body).ok()?;
    v.get("partNumber")?.as_u64()?;
    Some(v.get("etag")?.as_str()?.to_string())
}

/// Relies on `serde_json::from_slice`: whether the bytes parse as a JSON
/// document at all; the result depends on the bytes alone.
#[verifier::external_body]
pub(crate) fn read_json_ack(body: &[u8]) -> (r: bool)
    ensures
        r == is_json_document(body@),
{
    serde_json::from_slice::<serde_json::Value>(body).is_ok()
}

/// Relies on `serde_json::from_slice` and `serde_json::Value::{as_array, get,
/// as_str, as_u64}`: reads a JSON array of listing entries; the result
/// depends on the bytes alone.
#[verifier::external_body]
pub(crate) fn read_listing(body: &[u8]) -> (r: Option<Vec<ListEntry>>)
    ensures
        match r {
            Some(es) => parsed_listing(body@) == Some(list_entries_view(es@)),
            None => parsed_listing(body@) is None,
        },
{
    let v: serde_json::Value = serde_json::from_slice(body).ok()?;
    let mut out: Vec<ListEntry> = Vec::new();
    for item in v.as_array()? {
        let key = item.get("key")?.as_str()?.to_string();
        let size = item.get("size")?.as_u64()?;
        let etag = item.get("etag")?.as_str()?.to_string();
        out.push(ListEntry { key, size, etag });
    }
    Some(out)
}

} // verus!
