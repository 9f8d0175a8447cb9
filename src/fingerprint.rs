//! Cache keys: a content digest of a command's text.
use sha2::Digest;
use vstd::prelude::*;

verus! {

/// The SHA-256 digest of the UTF-8 encoding of `s`, in lowercase hexadecimal.
pub uninterp spec fn sha256_hex(s: Seq<char>) -> Seq<char>;

/// Relies on `sha2::Sha256::digest` (through `digest::Digest`) for the
/// digest of the bytes of `s`, and on the `LowerHex` impl of its output array
/// to write it in hexadecimal. The result depends on the text alone.
#[verifier::external_body]
fn sha256_hex_of(s: &str) -> (r: String)
    ensures
        r@ == sha256_hex(s@),
{
    format!("{:x}", sha2::Sha256::digest(s.as_bytes()))
}

/// The cache key for a digest: the digest behind the prefix `load_`.
pub open spec fn key_for(digest: Seq<char>) -> Seq<char> {
    "load_"@ + digest
}

/// The cache key of a command text.
pub open spec fn fingerprint_of(text: Seq<char>) -> Seq<char> {
    key_for(sha256_hex(text))
}

/// Builds the cache key for a digest.
pub fn key_for_digest(digest: &str) -> (r: String)
    ensures
        r@ == key_for(digest@),
{
    let mut r = String::from_str("load_");
    r.append(digest);
    r
}

/// Computes the cache key of a command text.
pub fn fingerprint(text: &str) -> (r: String)
    ensures
        r@ == fingerprint_of(text@),
{
    let digest = sha256_hex_of(text);
    key_for_digest(digest.as_str())
}

} // verus!
