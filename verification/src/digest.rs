//! Content hashes and content types of deployment files.
use vstd::prelude::*;

use crate::text::digit_char;

verus! {

/// The SHA-256 digest of the bytes (sha2's `Sha256::digest`).
pub uninterp spec fn sha256_digest(bytes: Seq<u8>) -> Seq<u8>;

/// The MIME type that mime_guess guesses for a path from its extension,
/// `application/octet-stream` when it has no guess.
pub uninterp spec fn guessed_content_type(path: Seq<char>) -> Seq<char>;

/// Computes SHA-256 with sha2's `Sha256::digest`; the contract says that the
/// result is that digest, of the 32 bytes that SHA-256 yields.
#[verifier::external_body]
fn sha256(bytes: &[u8]) -> (digest: Vec<u8>)
    ensures
        digest@ == sha256_digest(bytes@),
        digest@.len() == 32,
{
    <sha2::Sha256 as sha2::Digest>::digest(bytes).to_vec()
}

/// One lowercase hex digit.
pub open spec fn hex_digit(d: u8) -> char {
    if d < 10 {
        digit_char(d as nat)
    } else {
        ((d - 10) as u32 + 'a' as u32) as char
    }
}

/// The lowercase hex text of the bytes, two digits per byte, high half
/// first.
pub open spec fn hex_text(bytes: Seq<u8>) -> Seq<char>
    decreases bytes.len(),
{
    if bytes.len() == 0 {
        Seq::empty()
    } else {
        hex_text(bytes.drop_last()) + seq![hex_digit(bytes.last() / 16), hex_digit(bytes.last() % 16)]
    }
}

/// Encodes with hex's `encode`, which writes each byte as two lowercase hex
/// digits; the contract states exactly that.
#[verifier::external_body]
fn hex_encode(bytes: &[u8]) -> (text: String)
    ensures
        text@ == hex_text(bytes@),
{
    hex::encode(bytes)
}

/// Guesses a content type with mime_guess's `from_path` and its
/// `first_or_octet_stream`; the contract names the guess and says no more.
#[verifier::external_body]
fn mime_for_path(path: &str) -> (content_type: String)
    ensures
        content_type@ == guessed_content_type(path@),
{
    mime_guess::from_path(path).first_or_octet_stream().essence_str().to_string()
}

/// The hex SHA-256 of a file's contents and their size in bytes.
pub fn hash_contents(bytes: &[u8]) -> (r: (String, u64))
    ensures
        r.0@ == hex_text(sha256_digest(bytes@)),
        r.1 == bytes@.len(),
{
    let digest = sha256(bytes);
    let text = hex_encode(digest.as_slice());
    (text, bytes.len() as u64)
}

/// The content type a file is uploaded with, guessed from its path.
pub fn content_type_for(relative_path: &str) -> (content_type: String)
    ensures
        content_type@ == guessed_content_type(relative_path@),
{
    mime_for_path(relative_path)
}

pub open spec fn spec_cache_control(content_type: Seq<char>) -> Seq<char> {
    if content_type == "text/html"@ {
        "public, max-age=60"@
    } else {
        "public, max-age=86400"@
    }
}

/// HTML is revalidated after a minute; every other asset is cached a day.
pub fn cache_control_for(content_type: &str) -> (c: &'static str)
    ensures
        c@ == spec_cache_control(content_type@),
{
    if crate::text::same_text(content_type, "text/html") {
        "public, max-age=60"
    } else {
        "public, max-age=86400"
    }
}


/// HTML pages are cached for a minute and every other content type for a
/// day.
pub proof fn lemma_cache_lifetimes(content_type: Seq<char>)
    ensures
        content_type == "text/html"@ ==> spec_cache_control(content_type) == "public, max-age=60"@,
        content_type != "text/html"@ ==> spec_cache_control(content_type)
            == "public, max-age=86400"@,
{
}

} // verus!
