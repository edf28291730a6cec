//! The API server: its Auth0 settings, the token types of the back-channel code
//! exchange, and its implementation of the API's operations.

use vstd::prelude::*;
use vstd::string::StringExecFns;
use crate::apis::{GetHello200Response, GetHelloResponse, GetTestauth200Response, GetTestauthResponse};
use crate::oauth::token_url_text;

verus! {

/// The API server.
#[derive(Clone)]
pub struct MyApi;

/// The tokens that the token endpoint returns.
pub struct TokenResponse {
    pub access_token: String,
    pub id_token: String,
    pub token_type: String,
    pub expires_in: u64,
}

/// The claims of an ID token.
pub struct IdTokenClaims {
    pub sub: String,
    pub name: Option<String>,
    pub email: Option<String>,
    pub picture: Option<String>,
    pub exp: usize,
    pub iss: Option<String>,
    pub aud: Option<String>,
}

/// The Auth0 application the server logs users in with.
pub struct ArgsAuth0 {
    pub auth0_domain: String,
    pub auth0_client_id: String,
    pub auth0_client_secret: String,
    pub auth0_redirect_uri: String,
    pub auth0_response_type: String,
    pub auth0_scope: String,
}

/// A form POST: the URL and the form's fields, each name once.
pub struct TokenForm {
    pub url: String,
    pub params: Vec<(String, String)>,
}

/// The form's fields as text.
pub open spec fn params_text(params: Seq<(String, String)>) -> Seq<(Seq<char>, Seq<char>)> {
    params.map_values(|p: (String, String)| (p.0@, p.1@))
}

/// The fields of the authorization-code exchange with the client's secret.
pub open spec fn token_form_fields(cfg: ArgsAuth0, code: Seq<char>) -> Seq<(Seq<char>, Seq<char>)> {
    seq![
        ("grant_type"@, "authorization_code"@),
        ("code"@, code),
        ("client_id"@, cfg.auth0_client_id@),
        ("client_secret"@, cfg.auth0_client_secret@),
        ("redirect_uri"@, cfg.auth0_redirect_uri@),
    ]
}

/// The message for a token exchange that the server refused.
pub open spec fn exchange_failure_text(status: Seq<char>, text: Seq<char>) -> Seq<char> {
    "Token exchange failed with status "@ + status + ": "@ + text
}

/// A field of a form.
fn field(name: &str, value: &str) -> (f: (String, String))
    ensures
        f.0@ == name@,
        f.1@ == value@,
{
    (String::from_str(name), String::from_str(value))
}

impl MyApi {
    /// The request that exchanges an authorization code for tokens at the tenant's
    /// token endpoint, with the client's secret; it fails when the settings have not
    /// been stored.
    pub fn token_form(&self, config: Option<&ArgsAuth0>, code: &str) -> (r: Result<TokenForm, String>)
        ensures
            match config {
                None => r matches Err(m) && m@ == "Auth0 configuration not initialized"@,
                Some(cfg) => r matches Ok(f) && f.url@ == token_url_text(cfg.auth0_domain@)
                    && params_text(f.params@) == token_form_fields(*cfg, code@),
            },
    {
        let cfg = match config {
            Some(cfg) => cfg,
            None => return Err(String::from_str("Auth0 configuration not initialized")),
        };
        let mut params: Vec<(String, String)> = Vec::new();
        params.push(field("grant_type", "authorization_code"));
        params.push(field("code", code));
        params.push(field("client_id", cfg.auth0_client_id.as_str()));
        params.push(field("client_secret", cfg.auth0_client_secret.as_str()));
        params.push(field("redirect_uri", cfg.auth0_redirect_uri.as_str()));
        let mut url = String::from_str("https://");
        url.append(cfg.auth0_domain.as_str());
        url.append("/oauth/token");
        assert(params_text(params@) =~= token_form_fields(*cfg, code@));
        Ok(TokenForm { url, params })
    }

    /// The message for a refused token exchange, with the response's status line and text.
    pub fn exchange_failure(status: &str, text: &str) -> (m: String)
        ensures
            m@ == exchange_failure_text(status@, text@),
    {
        let mut m = String::from_str("Token exchange failed with status ");
        m.append(status);
        m.append(": ");
        m.append(text);
        m
    }
}

impl crate::apis::Default for MyApi {
    /// The greeting `hello`.
    fn get_hello(&self) -> (r: Result<GetHelloResponse, String>)
        ensures
            r matches Ok(GetHelloResponse::Status200_AJSONObjectWithAGreetingMessage(body)) && (
            body.message matches Some(m) && m@ == "hello"@),
    {
        let body = GetHello200Response { message: Some(String::from_str("hello")) };
        Ok(GetHelloResponse::Status200_AJSONObjectWithAGreetingMessage(body))
    }

    /// The test user: login `test`, subject `test sub`.
    fn get_testauth(&self) -> (r: Result<GetTestauthResponse, String>)
        ensures
            r matches Ok(GetTestauthResponse::Status200_SuccessfullyRetrievedUserInformation(body)) && (
            body.login matches Some(l) && l@ == "test"@) && (body.sub matches Some(s) && s@
                == "test sub"@),
    {
        let body = GetTestauth200Response {
            login: Some(String::from_str("test")),
            sub: Some(String::from_str("test sub")),
        };
        Ok(GetTestauthResponse::Status200_SuccessfullyRetrievedUserInformation(body))
    }
}

impl AsRef<MyApi> for MyApi {
    fn as_ref(&self) -> (r: &MyApi)
        ensures
            r == self,
    {
        self
    }
}

} // verus!
