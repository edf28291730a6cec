//! The browser side of the login: the authorize redirect with a fresh PKCE
//! verifier and the cookie that keeps it for the callback page.

pub mod auth;

pub use self::auth::exchange_code_for_token;

use vstd::prelude::*;
use crate::cookie::{verifier_cookie, verifier_cookie_text};
use crate::oauth::{authorize_url, authorize_url_text};
use crate::pkce::{
    base64_url_nopad, code_challenge_of, generate_code_challenge, generate_code_verifier,
    is_valid_code_verifier,
};

verus! {

/// The tokens that the token endpoint returns to the browser.
pub struct TokenResponse {
    pub access_token: String,
    pub id_token: String,
    pub expires_in: u64,
    pub token_type: String,
    pub scope: Option<String>,
}

/// What starting a login does: store `cookie` (which holds `verifier`) and go to `url`.
pub struct LoginRedirect {
    pub verifier: String,
    pub cookie: String,
    pub url: String,
}

/// A login that starts from a fresh verifier, as `login` promises it.
pub open spec fn is_login_redirect(
    r: LoginRedirect,
    client_id: Seq<char>,
    domain: Seq<char>,
    redirect_uri: Seq<char>,
    audience: Option<Seq<char>>,
) -> bool {
    &&& is_valid_code_verifier(r.verifier@)
    &&& exists|b: Seq<u8>| b.len() == 32 && r.verifier@ == #[trigger] base64_url_nopad(b)
    &&& r.cookie@ == verifier_cookie_text(r.verifier@)
    &&& r.url@ == authorize_url_text(domain, client_id, redirect_uri, code_challenge_of(r.verifier@), audience)
}

/// Starts a login with a fresh verifier, optionally for an API audience.
pub(crate) fn start_login(client_id: &str, domain: &str, redirect_uri: &str, audience: Option<&str>) -> (r: LoginRedirect)
    ensures
        is_login_redirect(
            r,
            client_id@,
            domain@,
            redirect_uri@,
            match audience {
                Some(a) => Some(a@),
                None => None,
            },
        ),
{
    let verifier = generate_code_verifier();
    let challenge = generate_code_challenge(verifier.as_str());
    let cookie = verifier_cookie(verifier.as_str());
    let url = authorize_url(domain, client_id, redirect_uri, challenge.as_str(), audience);
    LoginRedirect { verifier, cookie, url }
}

/// Starts a login: a fresh PKCE verifier, the cookie that keeps it, and the authorize
/// URL with its S256 challenge.
pub fn login(client_id: &str, domain: &str, redirect_uri: &str) -> (r: LoginRedirect)
    ensures
        is_login_redirect(r, client_id@, domain@, redirect_uri@, None),
{
    start_login(client_id, domain, redirect_uri, None)
}

} // verus!
