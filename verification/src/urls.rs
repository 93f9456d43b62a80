//! Building the request URLs of the store's HTTP surface.
//!
//! The base URL is normalized by dropping trailing slashes; object keys are
//! percent-encoded into the path.

use vstd::prelude::*;
use vstd::string::StringExecFns;

verus! {

/// `s` with every trailing '/' character removed.
pub open spec fn trimmed_base(s: Seq<char>) -> Seq<char>
    decreases s.len(),
{
    if s.len() > 0 && s.last() == '/' {
        trimmed_base(s.drop_last())
    } else {
        s
    }
}

/// The percent-encoding of a key, as `urlencoding` computes it; a fixed
/// function of the characters alone.
pub uninterp spec fn url_encoded(s: Seq<char>) -> Seq<char>;

/// Relies on `str::trim_end_matches`: repeatedly removes the trailing '/'
/// characters of the base URL and nothing else.
#[verifier::external_body]
fn trim_base(s: &str) -> (r: String)
    ensures
        r@ == trimmed_base(s@),
{
    s.trim_end_matches('/').to_string()
}

/// Relies on `urlencoding::encode`: percent-encodes every byte except ASCII
/// alphanumerics and `-`, `_`, `.`, `~`; the result depends on the characters
/// alone.
#[verifier::external_body]
fn encode_key(s: &str) -> (r: String)
    ensures
        r@ == url_encoded(s@),
{
    urlencoding::encode(s).into_owned()
}

/// The URL that answers whether an object exists.
pub fn stats_url(base_url: &str, name: &str) -> (r: String)
    ensures
        r@ == trimmed_base(base_url@) + "/objects/"@ + url_encoded(name@) + "/stats"@,
{
    let mut u = trim_base(base_url);
    u.append("/objects/");
    let enc = encode_key(name);
    u.append(enc.as_str());
    u.append("/stats");
    u
}

/// The URL that serves an object's body.
pub fn download_url(base_url: &str, name: &str) -> (r: String)
    ensures
        r@ == trimmed_base(base_url@) + "/objects/"@ + url_encoded(name@) + "/download"@,
{
    let mut u = trim_base(base_url);
    u.append("/objects/");
    let enc = encode_key(name);
    u.append(enc.as_str());
    u.append("/download");
    u
}

/// The URL an object is deleted at.
pub fn object_url(base_url: &str, name: &str) -> (r: String)
    ensures
        r@ == trimmed_base(base_url@) + "/objects/"@ + url_encoded(name@),
{
    let mut u = trim_base(base_url);
    u.append("/objects/");
    let enc = encode_key(name);
    u.append(enc.as_str());
    u
}

/// The URL that enumerates objects.
pub fn list_url(base_url: &str) -> (r: String)
    ensures
        r@ == trimmed_base(base_url@) + "/objects"@,
{
    let mut u = trim_base(base_url);
    u.append("/objects");
    u
}

/// The URL that opens a multipart upload session.
pub fn create_upload_url(base_url: &str) -> (r: String)
    ensures
        r@ == trimmed_base(base_url@) + "/uploads/create"@,
{
    let mut u = trim_base(base_url);
    u.append("/uploads/create");
    u
}

/// The URL one part is sent to.
pub fn upload_part_url(base_url: &str) -> (r: String)
    ensures
        r@ == trimmed_base(base_url@) + "/uploads/upload-part"@,
{
    let mut u = trim_base(base_url);
    u.append("/uploads/upload-part");
    u
}

/// The URL the completion call goes to.
pub fn complete_upload_url(base_url: &str) -> (r: String)
    ensures
        r@ == trimmed_base(base_url@) + "/uploads/complete"@,
{
    let mut u = trim_base(base_url);
    u.append("/uploads/complete");
    u
}

} // verus!
