//! The browser's session: the access token it holds, login and logout, and the
//! token request of the callback page.

use vstd::prelude::*;
use crate::auth::{is_login_redirect, start_login, LoginRedirect};
use crate::oauth::{
    logout_url, token_request, token_request_body_text, token_url_text, logout_url_text,
    TokenExchangeRequest,
};

verus! {

/// The tokens that the token endpoint returns to the browser.
pub struct TokenResponse {
    pub access_token: String,
    pub id_token: String,
}

/// The session: the access token, once there is one.
pub struct AuthContext {
    pub token: Option<String>,
}

impl AuthContext {
    /// Whether the user is signed in: there is an access token.
    pub fn is_sing_in(&self) -> (b: bool)
        ensures
            b == self.token is Some,
    {
        self.token.is_some()
    }

    /// Replaces the access token.
    pub fn set_token(&mut self, value: Option<String>)
        ensures
            final(self).token == value,
    {
        self.token = value;
    }
}

/// Starts a login for the API `audience`: a fresh PKCE verifier, the cookie that keeps
/// it, and the authorize URL with its S256 challenge and the audience.
pub fn login(client_id: &str, domain: &str, redirect_uri: &str, audience: &str) -> (r: LoginRedirect)
    ensures
        is_login_redirect(r, client_id@, domain@, redirect_uri@, Some(audience@)),
{
    start_login(client_id, domain, redirect_uri, Some(audience))
}

/// The URL that logs the user out and returns to `post_logout_redirect_uri`.
pub fn logout(client_id: &str, domain: &str, post_logout_redirect_uri: &str) -> (u: String)
    ensures
        u@ == logout_url_text(domain@, client_id@, post_logout_redirect_uri@),
{
    logout_url(domain, client_id, post_logout_redirect_uri)
}

/// The request that exchanges the authorization code for tokens, proving possession
/// of the PKCE `verifier`.
pub fn exchange_code_for_token(
    code: &str,
    verifier: &str,
    client_id: &str,
    domain: &str,
    redirect_uri: &str,
    audience: &str,
) -> (r: TokenExchangeRequest)
    ensures
        r.url@ == token_url_text(domain@),
        r.body@ == token_request_body_text(code@, verifier@, client_id@, redirect_uri@, audience@),
{
    token_request(code, verifier, client_id, domain, redirect_uri, audience)
}

} // verus!
