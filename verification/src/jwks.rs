//! Finding the key that checks an access token's signature: the `kid` of the
//! token's header picks an RSA key out of the tenant's JSON Web Key Set.

use jsonwebtoken::{decode_header, DecodingKey};
use vstd::prelude::*;
use vstd::string::StringExecFns;
use crate::text::{opt_text, str_equals};

verus! {

#[verifier::external_type_specification]
#[verifier::external_body]
pub struct ExDecodingKey(DecodingKey);

/// What `jsonwebtoken::decode_header` gives for a token: the header's optional `kid`,
/// or the text of the error when the header does not decode.
pub uninterp spec fn jwt_header_kid(token: Seq<char>) -> Result<Option<Seq<char>>, Seq<char>>;

/// The text of the error of `jsonwebtoken::DecodingKey::from_rsa_components` for the
/// modulus and exponent, `None` when it accepts them (both must decode as BASE64URL).
pub uninterp spec fn rsa_components_error(n: Seq<char>, e: Seq<char>) -> Option<Seq<char>>;

/// The key that `jsonwebtoken::DecodingKey::from_rsa_components` builds from the modulus
/// and exponent when it accepts them.
pub uninterp spec fn rsa_decoding_key(n: Seq<char>, e: Seq<char>) -> DecodingKey;

/// Why an access token was not accepted.
#[derive(Debug, Clone, PartialEq, Eq)]
pub enum AuthError {
    /// The token's header does not decode; the decoder's error text.
    InvalidHeader(String),
    /// The token's header names no key (`kid`).
    MissingKid,
    /// The key set could not be fetched or read; the error text.
    JwksUnavailable(String),
    /// The key set has no `keys` array.
    NoKeys,
    /// No key of the set has the token's `kid`.
    KeyNotFound,
    /// The matching key has no modulus `n`.
    MissingModulus,
    /// The matching key has no exponent `e`.
    MissingExponent,
    /// The modulus or the exponent does not decode; the error text.
    InvalidDecodingKey(String),
    /// The token failed signature, expiry or audience validation; the error text.
    ValidationFailed(String),
}

/// The message that reports an error.
pub open spec fn auth_error_text(e: AuthError) -> Seq<char> {
    match e {
        AuthError::InvalidHeader(m) => "Invalid token header: "@ + m@,
        AuthError::MissingKid => "Missing `kid` in token header"@,
        AuthError::JwksUnavailable(m) => m@,
        AuthError::NoKeys => "No 'keys' in JWKS"@,
        AuthError::KeyNotFound => "Matching JWK not found"@,
        AuthError::MissingModulus => "Missing 'n'"@,
        AuthError::MissingExponent => "Missing 'e'"@,
        AuthError::InvalidDecodingKey(m) => "Invalid decoding key: "@ + m@,
        AuthError::ValidationFailed(m) => "Token validation failed: "@ + m@,
    }
}

impl AuthError {
    /// The message that reports this error.
    pub fn message(&self) -> (m: String)
        ensures
            m@ == auth_error_text(*self),
    {
        match self {
            AuthError::InvalidHeader(e) => {
                let mut m = String::from_str("Invalid token header: ");
                m.append(e.as_str());
                m
            },
            AuthError::MissingKid => String::from_str("Missing `kid` in token header"),
            AuthError::JwksUnavailable(e) => e.clone(),
            AuthError::NoKeys => String::from_str("No 'keys' in JWKS"),
            AuthError::KeyNotFound => String::from_str("Matching JWK not found"),
            AuthError::MissingModulus => String::from_str("Missing 'n'"),
            AuthError::MissingExponent => String::from_str("Missing 'e'"),
            AuthError::InvalidDecodingKey(e) => {
                let mut m = String::from_str("Invalid decoding key: ");
                m.append(e.as_str());
                m
            },
            AuthError::ValidationFailed(e) => {
                let mut m = String::from_str("Token validation failed: ");
                m.append(e.as_str());
                m
            },
        }
    }
}

/// One key of a JSON Web Key Set, as the members the guard reads: each is present when
/// the key has that member as a JSON string.
pub struct Jwk {
    pub kid: Option<String>,
    pub n: Option<String>,
    pub e: Option<String>,
}

/// A JSON Web Key Set; `keys` is present when the document has a `keys` array.
pub struct JwkSet {
    pub keys: Option<Vec<Jwk>>,
}

/// The modulus and exponent of an RSA public key, in BASE64URL.
pub struct RsaComponents {
    pub n: String,
    pub e: String,
}

/// The components of the first of `keys` whose `kid` is `kid`.
pub open spec fn select_in(keys: Seq<Jwk>, kid: Seq<char>) -> Result<(Seq<char>, Seq<char>), AuthError>
    decreases keys.len(),
{
    if keys.len() == 0 {
        Err(AuthError::KeyNotFound)
    } else if opt_text(keys[0].kid) == Some(kid) {
        match (keys[0].n, keys[0].e) {
            (Some(n), Some(e)) => Ok((n@, e@)),
            (Some(_), None) => Err(AuthError::MissingExponent),
            (None, _) => Err(AuthError::MissingModulus),
        }
    } else {
        select_in(keys.drop_first(), kid)
    }
}

/// The components of the key of `jwks` that the `kid` picks.
pub open spec fn select_key(jwks: JwkSet, kid: Seq<char>) -> Result<(Seq<char>, Seq<char>), AuthError> {
    match jwks.keys {
        Some(keys) => select_in(keys@, kid),
        None => Err(AuthError::NoKeys),
    }
}

/// The `kid` of a token's header, or the text of the error when it does not decode.
///
/// Trusted: `jsonwebtoken::decode_header`, which decodes the header part of the token;
/// its result depends on the token alone.
#[verifier::external_body]
fn header_kid(token: &str) -> (r: Result<Option<String>, String>)
    ensures
        match r {
            Ok(k) => jwt_header_kid(token@) == Ok::<Option<Seq<char>>, Seq<char>>(opt_text(k)),
            Err(m) => jwt_header_kid(token@) == Err::<Option<Seq<char>>, Seq<char>>(m@),
        },
{
    match decode_header(token) {
        Ok(header) => Ok(header.kid),
        Err(e) => Err(e.to_string()),
    }
}

/// An RSA decoding key from its BASE64URL components, or the text of the error.
///
/// Trusted: `jsonwebtoken::DecodingKey::from_rsa_components`. Whether it succeeds, the
/// key it builds and the error's text depend on the two components alone.
#[verifier::external_body]
fn rsa_key(n: &str, e: &str) -> (r: Result<DecodingKey, String>)
    ensures
        match r {
            Ok(k) => rsa_components_error(n@, e@) is None && k == rsa_decoding_key(n@, e@),
            Err(m) => rsa_components_error(n@, e@) == Some(m@),
        },
{
    DecodingKey::from_rsa_components(n, e).map_err(|err| err.to_string())
}

/// The key id that the token's header names.
pub fn token_kid(token: &str) -> (r: Result<String, AuthError>)
    ensures
        match jwt_header_kid(token@) {
            Err(m) => r matches Err(AuthError::InvalidHeader(t)) && t@ == m,
            Ok(None) => r matches Err(AuthError::MissingKid),
            Ok(Some(k)) => r matches Ok(s) && s@ == k,
        },
{
    match header_kid(token) {
        Err(m) => Err(AuthError::InvalidHeader(m)),
        Ok(None) => Err(AuthError::MissingKid),
        Ok(Some(kid)) => Ok(kid),
    }
}

/// The components of the first key of `jwks` whose `kid` is `kid`.
pub fn select_jwk(jwks: &JwkSet, kid: &str) -> (r: Result<RsaComponents, AuthError>)
    ensures
        match select_key(*jwks, kid@) {
            Ok((n, e)) => r matches Ok(c) && c.n@ == n && c.e@ == e,
            Err(x) => r matches Err(y) && y == x,
        },
{
    let keys = match &jwks.keys {
        Some(keys) => keys,
        None => return Err(AuthError::NoKeys),
    };
    let mut i: usize = 0;
    assert(keys@.skip(0) =~= keys@);
    while i < keys.len()
        invariant
            jwks.keys == Some(*keys),
            i <= keys.len(),
            select_in(keys@, kid@) == select_in(keys@.skip(i as int), kid@),
        decreases keys.len() - i,
    {
        let key = &keys[i];
        assert(keys@.skip(i as int)[0] == keys@[i as int]);
        let matches = match &key.kid {
            Some(k) => str_equals(k.as_str(), kid),
            None => false,
        };
        if matches {
            return match (&key.n, &key.e) {
                (Some(n), Some(e)) => Ok(RsaComponents { n: n.clone(), e: e.clone() }),
                (Some(_), None) => Err(AuthError::MissingExponent),
                (None, _) => Err(AuthError::MissingModulus),
            };
        }
        assert(keys@.skip(i as int).drop_first() =~= keys@.skip(i + 1));
        i = i + 1;
    }
    Err(AuthError::KeyNotFound)
}

/// The key that checks the token's signature: the RSA key of `jwks` that the token's
/// `kid` picks.
pub fn decoding_key(jwks: &JwkSet, kid: &str) -> (r: Result<DecodingKey, AuthError>)
    ensures
        r is Ok <==> (select_key(*jwks, kid@) matches Ok((n, e)) && rsa_components_error(n, e) is None),
        r matches Ok(k) ==> (select_key(*jwks, kid@) matches Ok((n, e)) && k == rsa_decoding_key(n, e)),
        r matches Err(x) ==> (select_key(*jwks, kid@) == Err::<(Seq<char>, Seq<char>), AuthError>(x)
            || (select_key(*jwks, kid@) matches Ok((n, e)) && rsa_components_error(n, e) matches Some(m)
            && x matches AuthError::InvalidDecodingKey(t) && t@ == m)),
{
    let c = match select_jwk(jwks, kid) {
        Ok(c) => c,
        Err(x) => return Err(x),
    };
    match rsa_key(c.n.as_str(), c.e.as_str()) {
        Ok(key) => Ok(key),
        Err(m) => Err(AuthError::InvalidDecodingKey(m)),
    }
}

/// Before the first key with the token's `kid`, the selection only moves on.
proof fn lemma_select_skips(keys: Seq<Jwk>, kid: Seq<char>, i: int)
    requires
        0 <= i <= keys.len(),
        forall|j: int| 0 <= j < i ==> opt_text(#[trigger] keys[j].kid) != Some(kid),
    ensures
        select_in(keys, kid) == select_in(keys.skip(i), kid),
    decreases i,
{
    if i > 0 {
        assert(opt_text(keys[0].kid) != Some(kid));
        lemma_select_skips(keys.drop_first(), kid, i - 1);
        assert(keys.drop_first().skip(i - 1) =~= keys.skip(i));
    } else {
        assert(keys.skip(0) =~= keys);
    }
}

/// The key that checks a token is the first key of the set with the token's `kid`,
/// wherever it stands and whatever keys follow it; when that key lacks its modulus or
/// exponent the selection says so. A set with no key of that `kid` gives `KeyNotFound`.
pub proof fn lemma_select_first_match(jwks: JwkSet, kid: Seq<char>, i: int)
    requires
        jwks.keys is Some,
        0 <= i < jwks.keys->0@.len(),
        opt_text(jwks.keys->0@[i].kid) == Some(kid),
        forall|j: int| 0 <= j < i ==> opt_text(#[trigger] jwks.keys->0@[j].kid) != Some(kid),
    ensures
        match (jwks.keys->0@[i].n, jwks.keys->0@[i].e) {
            (Some(n), Some(e)) => select_key(jwks, kid) == Ok::<(Seq<char>, Seq<char>), AuthError>(
                (n@, e@),
            ),
            (Some(_), None) => select_key(jwks, kid) == Err::<(Seq<char>, Seq<char>), AuthError>(
                AuthError::MissingExponent,
            ),
            (None, _) => select_key(jwks, kid) == Err::<(Seq<char>, Seq<char>), AuthError>(
                AuthError::MissingModulus,
            ),
        },
{
    let keys = jwks.keys->0@;
    lemma_select_skips(keys, kid, i);
    assert(keys.skip(i)[0] == keys[i]);
}

/// A set in which no key has the token's `kid` gives `KeyNotFound`.
pub proof fn lemma_select_no_match(jwks: JwkSet, kid: Seq<char>)
    requires
        jwks.keys is Some,
        forall|j: int| 0 <= j < jwks.keys->0@.len() ==> opt_text(#[trigger] jwks.keys->0@[j].kid) != Some(kid),
    ensures
        select_key(jwks, kid) == Err::<(Seq<char>, Seq<char>), AuthError>(AuthError::KeyNotFound),
{
    let keys = jwks.keys->0@;
    lemma_select_skips(keys, kid, keys.len() as int);
    assert(keys.skip(keys.len() as int).len() == 0);
}

} // verus!
