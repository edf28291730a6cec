//! PKCE (RFC 7636): the random code verifier and its S256 code challenge.

use base64::engine::general_purpose::URL_SAFE_NO_PAD;
use base64::Engine;
use rand::Rng;
use sha2::{Digest, Sha256};
use vstd::prelude::*;
use vstd::utf8::encode_utf8;

verus! {

/// BASE64URL encoding without padding (RFC 4648, section 5), as the `base64`
/// crate's `URL_SAFE_NO_PAD` engine computes it.
pub uninterp spec fn base64_url_nopad(data: Seq<u8>) -> Seq<char>;

/// The SHA-256 digest of `data`, as the `sha2` crate computes it.
pub uninterp spec fn sha256(data: Seq<u8>) -> Seq<u8>;

/// A character of the URL-safe base64 alphabet: `A-Z`, `a-z`, `0-9`, `-`, `_`.
pub open spec fn is_base64_url_char(c: char) -> bool {
    ||| 'A' <= c <= 'Z'
    ||| 'a' <= c <= 'z'
    ||| '0' <= c <= '9'
    ||| c == '-'
    ||| c == '_'
}

/// An unreserved URI character (RFC 3986): `A-Z`, `a-z`, `0-9`, `-`, `.`, `_`, `~`.
pub open spec fn is_unreserved_char(c: char) -> bool {
    ||| 'A' <= c <= 'Z'
    ||| 'a' <= c <= 'z'
    ||| '0' <= c <= '9'
    ||| c == '-'
    ||| c == '.'
    ||| c == '_'
    ||| c == '~'
}

/// A code verifier as RFC 7636 (section 4.1) allows it: 43 to 128 unreserved characters.
pub open spec fn is_valid_code_verifier(v: Seq<char>) -> bool {
    &&& 43 <= v.len() <= 128
    &&& forall|i: int| 0 <= i < v.len() ==> is_unreserved_char(#[trigger] v[i])
}

/// The S256 code challenge of a verifier: BASE64URL(SHA256(ASCII(code_verifier))).
pub open spec fn code_challenge_of(verifier: Seq<char>) -> Seq<char> {
    base64_url_nopad(sha256(encode_utf8(verifier)))
}

/// Thirty-two random bytes.
///
/// Trusted: `rand::thread_rng().gen::<[u8; 32]>()`; nothing is promised of the bytes.
#[verifier::external_body]
fn random_bytes_32() -> (b: [u8; 32]) {
    rand::thread_rng().gen()
}

/// Encodes `data` in BASE64URL without padding.
///
/// Trusted: `Engine::encode` of `base64::engine::general_purpose::URL_SAFE_NO_PAD`. Its
/// source shows a result of `ceil(4 * n / 3)` characters of the alphabet
/// `A-Za-z0-9-_`; it panics when that length does not fit in `usize`.
#[verifier::external_body]
fn base64_url_encode(data: &[u8]) -> (s: String)
    requires
        (4 * data@.len() + 2) / 3 <= usize::MAX,
    ensures
        s@ == base64_url_nopad(data@),
        s@.len() == (4 * data@.len() + 2) / 3,
        forall|i: int| 0 <= i < s@.len() ==> is_base64_url_char(#[trigger] s@[i]),
{
    URL_SAFE_NO_PAD.encode(data)
}

/// The SHA-256 digest of `data`.
///
/// Trusted: `sha2::Sha256::digest`, whose output is 32 bytes.
#[verifier::external_body]
fn sha256_digest(data: &[u8]) -> (h: Vec<u8>)
    ensures
        h@ == sha256(data@),
        h@.len() == 32,
{
    Sha256::digest(data).to_vec()
}

/// A fresh code verifier: 32 random bytes in BASE64URL, 43 characters long.
pub fn generate_code_verifier() -> (v: String)
    ensures
        is_valid_code_verifier(v@),
        v@.len() == 43,
        forall|i: int| 0 <= i < v@.len() ==> is_base64_url_char(#[trigger] v@[i]),
        exists|b: Seq<u8>| b.len() == 32 && v@ == #[trigger] base64_url_nopad(b),
{
    let bytes = random_bytes_32();
    let v = base64_url_encode(&bytes);
    assert forall|i: int| 0 <= i < v@.len() implies is_unreserved_char(#[trigger] v@[i]) by {
        assert(is_base64_url_char(v@[i]));
    }
    v
}

/// The S256 code challenge of `verifier`.
pub fn generate_code_challenge(verifier: &str) -> (c: String)
    ensures
        c@ == code_challenge_of(verifier@),
        c@.len() == 43,
        forall|i: int| 0 <= i < c@.len() ==> is_base64_url_char(#[trigger] c@[i]),
{
    let hash = sha256_digest(verifier.as_bytes());
    base64_url_encode(hash.as_slice())
}

} // verus!
