//! The requests of the authorization-code flow with PKCE against an Auth0 tenant:
//! the authorize redirect, the token exchange and the logout redirect.

use vstd::prelude::*;
use vstd::string::StringExecFns;
use vstd::utf8::encode_utf8;
use crate::text::{decimal, push_decimal};

verus! {

/// A byte that `urlencoding::encode` leaves as it is: an ASCII letter or digit, `-`, `.`, `_`, `~`.
pub open spec fn is_url_safe_byte(b: u8) -> bool {
    ||| 48 <= b <= 57
    ||| 65 <= b <= 90
    ||| 97 <= b <= 122
    ||| b == 45
    ||| b == 46
    ||| b == 95
    ||| b == 126
}

/// The upper-case hexadecimal digit for `d < 16`.
pub open spec fn hex_upper(d: int) -> char {
    if d < 10 {
        (48 + d) as char
    } else {
        (55 + d) as char
    }
}

/// One byte percent-encoded: itself when URL-safe, else `%` and two upper-case hex digits.
pub open spec fn percent_encode_byte(b: u8) -> Seq<char> {
    if is_url_safe_byte(b) {
        seq![b as char]
    } else {
        seq!['%', hex_upper(b as int / 16), hex_upper(b as int % 16)]
    }
}

/// The bytes percent-encoded one after the other.
pub open spec fn percent_encoded(bytes: Seq<u8>) -> Seq<char>
    decreases bytes.len(),
{
    if bytes.len() == 0 {
        Seq::empty()
    } else {
        percent_encoded(bytes.drop_last()) + percent_encode_byte(bytes.last())
    }
}

/// `s` percent-encoded as `urlencoding::encode` does it, over its UTF-8 bytes.
pub open spec fn url_encoded(s: Seq<char>) -> Seq<char> {
    percent_encoded(encode_utf8(s))
}

/// Percent-encodes `s` for use in a URL.
///
/// Trusted: `urlencoding::encode`, which percent-encodes every UTF-8 byte of `s` except
/// ASCII letters, digits, `-`, `.`, `_` and `~`, with upper-case hex digits.
#[verifier::external_body]
pub(crate) fn url_encode(s: &str) -> (r: String)
    ensures
        r@ == url_encoded(s@),
{
    urlencoding::encode(s).into_owned()
}

/// The content type of the token request body.
pub const FORM_CONTENT_TYPE: &'static str = "application/x-www-form-urlencoded";

/// The authorize URL that starts the login, with the S256 code challenge and,
/// when given, the API audience.
pub open spec fn authorize_url_text(
    domain: Seq<char>,
    client_id: Seq<char>,
    redirect_uri: Seq<char>,
    challenge: Seq<char>,
    audience: Option<Seq<char>>,
) -> Seq<char> {
    "https://"@ + domain + "/authorize?response_type=code"@ + "&client_id="@ + client_id
        + "&redirect_uri="@ + redirect_uri + "&scope=openid%20name%20email%20nickname"@
        + "&code_challenge="@ + challenge + "&code_challenge_method=S256"@ + match audience {
        Some(a) => "&audience="@ + a,
        None => Seq::<char>::empty(),
    }
}

/// The logout URL that ends the session and returns to `return_to`.
pub open spec fn logout_url_text(domain: Seq<char>, client_id: Seq<char>, return_to: Seq<char>) -> Seq<
    char,
> {
    "https://"@ + domain + "/v2/logout?client_id="@ + client_id + "&returnTo="@ + url_encoded(return_to)
}

/// The token endpoint of the tenant.
pub open spec fn token_url_text(domain: Seq<char>) -> Seq<char> {
    "https://"@ + domain + "/oauth/token"@
}

/// The form body that exchanges an authorization code for tokens. The redirect URI
/// and the audience are percent-encoded; the code, the client id and the verifier are not.
pub open spec fn token_request_body_text(
    code: Seq<char>,
    verifier: Seq<char>,
    client_id: Seq<char>,
    redirect_uri: Seq<char>,
    audience: Seq<char>,
) -> Seq<char> {
    "grant_type=authorization_code"@ + "&client_id="@ + client_id + "&code="@ + code
        + "&redirect_uri="@ + url_encoded(redirect_uri) + "&code_verifier="@ + verifier
        + "&audience="@ + url_encoded(audience)
}

/// The message for a token exchange that the server refused, with the status code
/// and the response text, or `empty` when the text could not be read.
pub open spec fn token_failure_text(status: u16, text: Option<Seq<char>>) -> Seq<char> {
    "Token exchange failed: status "@ + decimal(status as nat) + ": "@ + match text {
        Some(t) => t,
        None => "empty"@,
    }
}

/// A form POST to the token endpoint.
pub struct TokenExchangeRequest {
    pub url: String,
    pub body: String,
}

/// The authorize URL (see `authorize_url_text`).
pub fn authorize_url(
    domain: &str,
    client_id: &str,
    redirect_uri: &str,
    challenge: &str,
    audience: Option<&str>,
) -> (u: String)
    ensures
        u@ == authorize_url_text(
            domain@,
            client_id@,
            redirect_uri@,
            challenge@,
            match audience {
                Some(a) => Some(a@),
                None => None,
            },
        ),
{
    let mut u = String::from_str("https://");
    u.append(domain);
    u.append("/authorize?response_type=code");
    u.append("&client_id=");
    u.append(client_id);
    u.append("&redirect_uri=");
    u.append(redirect_uri);
    u.append("&scope=openid%20name%20email%20nickname");
    u.append("&code_challenge=");
    u.append(challenge);
    u.append("&code_challenge_method=S256");
    match audience {
        Some(a) => {
            u.append("&audience=");
            u.append(a);
        },
        None => {
            assert(u@ + Seq::<char>::empty() =~= u@);
        },
    }
    u
}

/// The logout URL (see `logout_url_text`).
pub fn logout_url(domain: &str, client_id: &str, return_to: &str) -> (u: String)
    ensures
        u@ == logout_url_text(domain@, client_id@, return_to@),
{
    let mut u = String::from_str("https://");
    u.append(domain);
    u.append("/v2/logout?client_id=");
    u.append(client_id);
    u.append("&returnTo=");
    let encoded = url_encode(return_to);
    u.append(encoded.as_str());
    u
}

/// The token request (see `token_url_text` and `token_request_body_text`).
pub fn token_request(
    code: &str,
    verifier: &str,
    client_id: &str,
    domain: &str,
    redirect_uri: &str,
    audience: &str,
) -> (r: TokenExchangeRequest)
    ensures
        r.url@ == token_url_text(domain@),
        r.body@ == token_request_body_text(code@, verifier@, client_id@, redirect_uri@, audience@),
{
    let redirect_encoded = url_encode(redirect_uri);
    let audience_encoded = url_encode(audience);
    let mut body = String::from_str("grant_type=authorization_code");
    body.append("&client_id=");
    body.append(client_id);
    body.append("&code=");
    body.append(code);
    body.append("&redirect_uri=");
    body.append(redirect_encoded.as_str());
    body.append("&code_verifier=");
    body.append(verifier);
    body.append("&audience=");
    body.append(audience_encoded.as_str());
    let mut url = String::from_str("https://");
    url.append(domain);
    url.append("/oauth/token");
    TokenExchangeRequest { url, body }
}

/// The message for a refused token exchange (see `token_failure_text`).
pub fn token_failure_message(status: u16, text: Option<&str>) -> (m: String)
    ensures
        m@ == token_failure_text(
            status,
            match text {
                Some(t) => Some(t@),
                None => None,
            },
        ),
{
    let mut m = String::from_str("Token exchange failed: status ");
    push_decimal(&mut m, status as u64);
    m.append(": ");
    match text {
        Some(t) => m.append(t),
        None => m.append("empty"),
    }
    m
}

/// A form body that ends with the verifier and the audience after the fields `p`.
pub open spec fn ends_with_verifier(p: Seq<char>, verifier: Seq<char>, audience: Seq<char>) -> Seq<char> {
    p + "&code_verifier="@ + verifier + "&audience="@ + url_encoded(audience)
}

/// The token request carries the verifier itself, character for character: for any two
/// verifiers the bodies share the same fields before `&code_verifier=` and differ only in
/// the verifier.
pub proof fn lemma_token_body_carries_verifier(
    code: Seq<char>,
    v1: Seq<char>,
    v2: Seq<char>,
    client_id: Seq<char>,
    redirect_uri: Seq<char>,
    audience: Seq<char>,
)
    ensures
        exists|p: Seq<char>|
            #![trigger ends_with_verifier(p, v1, audience)]
            token_request_body_text(code, v1, client_id, redirect_uri, audience) == ends_with_verifier(
                p,
                v1,
                audience,
            ) && token_request_body_text(code, v2, client_id, redirect_uri, audience)
                == ends_with_verifier(p, v2, audience),
{
    let p = "grant_type=authorization_code"@ + "&client_id="@ + client_id + "&code="@ + code
        + "&redirect_uri="@ + url_encoded(redirect_uri);
    assert(token_request_body_text(code, v1, client_id, redirect_uri, audience) =~= ends_with_verifier(
        p,
        v1,
        audience,
    ));
    assert(token_request_body_text(code, v2, client_id, redirect_uri, audience) =~= ends_with_verifier(
        p,
        v2,
        audience,
    ));
}

/// An authorize URL that ends with the challenge after the fields `p`.
pub open spec fn ends_with_challenge(p: Seq<char>, challenge: Seq<char>) -> Seq<char> {
    p + "&code_challenge="@ + challenge + "&code_challenge_method=S256"@
}

/// The authorize URL carries the challenge itself, character for character: for any two
/// challenges the URLs share the fields before `&code_challenge=`; an audience only adds
/// `&audience=<audience>` at the end.
pub proof fn lemma_authorize_url_carries_challenge(
    domain: Seq<char>,
    client_id: Seq<char>,
    redirect_uri: Seq<char>,
    ch1: Seq<char>,
    ch2: Seq<char>,
    audience: Seq<char>,
)
    ensures
        exists|p: Seq<char>|
            #![trigger ends_with_challenge(p, ch1)]
            authorize_url_text(domain, client_id, redirect_uri, ch1, None) == ends_with_challenge(p, ch1)
                && authorize_url_text(domain, client_id, redirect_uri, ch2, None) == ends_with_challenge(
                p,
                ch2,
            ),
        authorize_url_text(domain, client_id, redirect_uri, ch1, Some(audience)) == authorize_url_text(
            domain,
            client_id,
            redirect_uri,
            ch1,
            None,
        ) + "&audience="@ + audience,
{
    let p = "https://"@ + domain + "/authorize?response_type=code"@ + "&client_id="@ + client_id
        + "&redirect_uri="@ + redirect_uri + "&scope=openid%20name%20email%20nickname"@;
    assert(authorize_url_text(domain, client_id, redirect_uri, ch1, None) =~= ends_with_challenge(p, ch1));
    assert(authorize_url_text(domain, client_id, redirect_uri, ch2, None) =~= ends_with_challenge(p, ch2));
    assert(authorize_url_text(domain, client_id, redirect_uri, ch1, Some(audience)) =~= authorize_url_text(
        domain,
        client_id,
        redirect_uri,
        ch1,
        None,
    ) + "&audience="@ + audience);
}

/// The logout URL is the tenant's `/v2/logout` endpoint for every domain: what follows the
/// domain does not depend on it, and it names the client and the percent-encoded return
/// address.
pub proof fn lemma_logout_url_shape(domain: Seq<char>, client_id: Seq<char>, return_to: Seq<char>)
    ensures
        logout_url_text(domain, client_id, return_to) == "https://"@ + domain + ("/v2/logout?client_id="@
            + client_id + "&returnTo="@ + percent_encoded(encode_utf8(return_to))),
{
    let t = "/v2/logout?client_id="@ + client_id + "&returnTo="@ + percent_encoded(encode_utf8(return_to));
    assert(logout_url_text(domain, client_id, return_to) =~= "https://"@ + domain + t);
}

} // verus!
