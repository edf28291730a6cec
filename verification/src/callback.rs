//! The callback page: after the tenant redirects back with an authorization code,
//! the code is exchanged together with the verifier from the PKCE cookie.

use vstd::prelude::*;
use crate::auth::{is_login_redirect, LoginRedirect};
use crate::cookie::{cookie_value, cookie_value_in, lemma_verifier_cookie_read_back, PKCE_COOKIE_NAME};
use crate::oauth::{authorize_url_text, ends_with_verifier, lemma_token_body_carries_verifier};
use crate::pkce::code_challenge_of;
use crate::oauth::{token_request, token_request_body_text, token_url_text, TokenExchangeRequest};

verus! {

/// The token request of the callback page: when the redirect carried a `code`, it is
/// exchanged with the verifier that the `pkce_verifier` cookie holds. The page cannot
/// go on without that cookie.
pub fn callback_token_request(
    code: Option<&str>,
    cookies: &str,
    client_id: &str,
    domain: &str,
    redirect_uri: &str,
    audience: &str,
) -> (r: Option<TokenExchangeRequest>)
    requires
        cookie_value(cookies@, PKCE_COOKIE_NAME@) is Some,
    ensures
        code is None ==> r is None,
        code matches Some(c) ==> r matches Some(req) && req.url@ == token_url_text(domain@)
            && req.body@ == token_request_body_text(
            c@,
            cookie_value(cookies@, PKCE_COOKIE_NAME@)->0,
            client_id@,
            redirect_uri@,
            audience@,
        ),
{
    let verifier = match cookie_value_in(cookies, PKCE_COOKIE_NAME) {
        Some(v) => v,
        None => {
            proof {
                assert(false);
            }
            String::new()
        },
    };
    match code {
        Some(c) => Some(token_request(c, verifier.as_str(), client_id, domain, redirect_uri, audience)),
        None => None,
    }
}

/// PKCE holds across the redirect: the verifier that the callback page reads from the
/// cookie a login stored is the one whose S256 challenge that login sent to the tenant.
pub proof fn lemma_callback_verifier_matches_challenge(
    r: LoginRedirect,
    client_id: Seq<char>,
    domain: Seq<char>,
    redirect_uri: Seq<char>,
    audience: Option<Seq<char>>,
)
    requires
        is_login_redirect(r, client_id, domain, redirect_uri, audience),
    ensures
        cookie_value(r.cookie@, PKCE_COOKIE_NAME@) == Some(r.verifier@),
        r.url@ == authorize_url_text(
            domain,
            client_id,
            redirect_uri,
            code_challenge_of(cookie_value(r.cookie@, PKCE_COOKIE_NAME@)->0),
            audience,
        ),
{
    lemma_verifier_cookie_read_back(r.verifier@);
}

/// The callback page sends the very verifier that the login stored, whose S256 challenge
/// that login sent in its authorize URL.
pub proof fn lemma_callback_sends_login_verifier(
    r: LoginRedirect,
    client_id: Seq<char>,
    domain: Seq<char>,
    redirect_uri: Seq<char>,
    audience: Seq<char>,
    code: Seq<char>,
)
    requires
        is_login_redirect(r, client_id, domain, redirect_uri, Some(audience)),
    ensures
        exists|p: Seq<char>|
            #![trigger ends_with_verifier(p, r.verifier@, audience)]
            token_request_body_text(
                code,
                cookie_value(r.cookie@, PKCE_COOKIE_NAME@)->0,
                client_id,
                redirect_uri,
                audience,
            ) == ends_with_verifier(p, r.verifier@, audience),
        r.url@ == authorize_url_text(domain, client_id, redirect_uri, code_challenge_of(r.verifier@), Some(audience)),
{
    lemma_verifier_cookie_read_back(r.verifier@);
    lemma_token_body_carries_verifier(code, r.verifier@, r.verifier@, client_id, redirect_uri, audience);
}

} // verus!
