//! Password digests.

use vstd::prelude::*;

verus! {

/// What `pretty_sha2::sha512::gen` gives for a text: the SHA-512 digest of
/// its UTF-8 bytes, each byte written as one character of `0-9A-Za-z`.
pub uninterp spec fn pretty_sha512(source: Seq<char>) -> Seq<char>;

/// Whether `c` is an ASCII letter or digit.
pub open spec fn is_ascii_alphanumeric(c: char) -> bool {
    ('0' <= c && c <= '9') || ('A' <= c && c <= 'Z') || ('a' <= c && c <= 'z')
}

/// `pretty_sha2::sha512::gen` (pretty-sha2 0.1.5, `src/sha512.rs`: `hash`
/// then `to_str`): the 64 bytes of a SHA-512 hash, each
/// written as the character of `0-9A-Za-z` at its value modulo 62.
#[verifier::external_body]
fn pretty_sha512_gen(source: &str) -> (digest: String)
    ensures
        digest@ == pretty_sha512(source@),
        digest@.len() == 64,
        forall|i: int| 0 <= i < 64 ==> is_ascii_alphanumeric(#[trigger] digest@[i]),
{
    pretty_sha2::sha512::gen(source)
}

/// The digest stored for a password.
pub fn hash_password(pass: &str) -> (digest: String)
    ensures
        digest@ == pretty_sha512(pass@),
        digest@.len() == 64,
        forall|i: int| 0 <= i < 64 ==> is_ascii_alphanumeric(#[trigger] digest@[i]),
{
    pretty_sha512_gen(pass)
}

} // verus!
