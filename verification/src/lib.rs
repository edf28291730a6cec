//! Verified core of an Auth0 login flow: PKCE code verifier and challenge,
//! the authorization and token requests, the pkce cookie, and the bearer-token
//! guard in front of the API.

pub mod text;
pub mod cookie;
pub mod pkce;
pub mod oauth;
pub mod middleware;
pub mod jwks;
pub mod apis;
pub mod server;
pub mod auth;
pub mod callback;
pub mod testauth;
