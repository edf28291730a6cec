use auth0_flow::auth;
use auth0_flow::auth::auth::{AuthContext, TokenResponse};
use auth0_flow::callback::callback_token_request;
use auth0_flow::cookie::{cookie_value_in, PKCE_COOKIE_NAME};
use auth0_flow::oauth::{authorize_url, logout_url, token_failure_message, FORM_CONTENT_TYPE};
use auth0_flow::pkce::generate_code_challenge;
use auth0_flow::testauth::{testauth, testauth_result};

fn encoded(s: &str) -> String {
    let u = logout_url("d", "c", s);
    u["https://d/v2/logout?client_id=c&returnTo=".len()..].to_string()
}

#[test]
fn url_encoding() {
    assert_eq!(encoded("http://localhost:8080/"), "http%3A%2F%2Flocalhost%3A8080%2F");
    assert_eq!(encoded("a-b_c.d~e f"), "a-b_c.d~e%20f");
    assert_eq!(encoded("ł"), "%C5%82");
    assert_eq!(encoded("AZaz09"), "AZaz09");
    assert_eq!(encoded("\n/?&="), "%0A%2F%3F%26%3D");
    assert_eq!(encoded(""), "");
}

#[test]
fn authorize_url_without_and_with_audience() {
    assert_eq!(
        authorize_url("t.eu.auth0.com", "cid", "http://localhost:8080/callback", "CH", None),
        "https://t.eu.auth0.com/authorize?response_type=code&client_id=cid&redirect_uri=http://localhost:8080/callback&scope=openid%20name%20email%20nickname&code_challenge=CH&code_challenge_method=S256"
    );
    assert_eq!(
        authorize_url("d", "c", "r", "CH", Some("https://api")),
        "https://d/authorize?response_type=code&client_id=c&redirect_uri=r&scope=openid%20name%20email%20nickname&code_challenge=CH&code_challenge_method=S256&audience=https://api"
    );
}

#[test]
fn login_builds_cookie_and_url_from_one_verifier() {
    let r = auth::login("cid", "tenant", "http://localhost/cb");
    assert_eq!(r.cookie, format!("pkce_verifier={}; Path=/; Max-Age=300; SameSite=Lax", r.verifier));
    let challenge = generate_code_challenge(&r.verifier);
    assert_eq!(
        r.url,
        format!("https://tenant/authorize?response_type=code&client_id=cid&redirect_uri=http://localhost/cb&scope=openid%20name%20email%20nickname&code_challenge={}&code_challenge_method=S256", challenge)
    );
    let r2 = auth::auth::login("cid", "tenant", "http://localhost/cb", "aud");
    assert!(r2.url.ends_with("&code_challenge_method=S256&audience=aud"));
    assert_eq!(cookie_value_in(&r2.cookie, PKCE_COOKIE_NAME), Some(r2.verifier.clone()));
}

#[test]
fn logout_url_encodes_return_address() {
    assert_eq!(
        auth::auth::logout("cid", "tenant", "http://localhost:8080/"),
        "https://tenant/v2/logout?client_id=cid&returnTo=http%3A%2F%2Flocalhost%3A8080%2F"
    );
}

#[test]
fn token_exchange_request() {
    let r = auth::exchange_code_for_token("CODE", "VER", "cid", "tenant", "http://x/cb", "https://api");
    assert_eq!(r.url, "https://tenant/oauth/token");
    assert_eq!(
        r.body,
        "grant_type=authorization_code&client_id=cid&code=CODE&redirect_uri=http%3A%2F%2Fx%2Fcb&code_verifier=VER&audience=https%3A%2F%2Fapi"
    );
    assert_eq!(FORM_CONTENT_TYPE, "application/x-www-form-urlencoded");
}

#[test]
fn token_exchange_failure_messages() {
    assert_eq!(token_failure_message(400, Some("bad code")), "Token exchange failed: status 400: bad code");
    assert_eq!(token_failure_message(0, None), "Token exchange failed: status 0: empty");
    assert_eq!(token_failure_message(65535, Some("")), "Token exchange failed: status 65535: ");
}

#[test]
fn callback_uses_verifier_from_cookie() {
    let jar = "a=b; pkce_verifier=VER";
    let r = callback_token_request(Some("CODE"), jar, "cid", "tenant", "r", "a").unwrap();
    assert_eq!(
        r.body,
        "grant_type=authorization_code&client_id=cid&code=CODE&redirect_uri=r&code_verifier=VER&audience=a"
    );
    assert!(callback_token_request(None, jar, "cid", "tenant", "r", "a").is_none());
}

#[test]
fn session_token() {
    let mut ctx = AuthContext { token: None };
    assert!(!ctx.is_sing_in());
    ctx.set_token(Some("tok".to_string()));
    assert!(ctx.is_sing_in());
    assert_eq!(ctx.token.as_deref(), Some("tok"));
    ctx.set_token(None);
    assert!(!ctx.is_sing_in());
    let t = TokenResponse { access_token: "a".into(), id_token: "i".into() };
    assert_eq!(t.access_token, "a");
}

#[test]
fn testauth_request() {
    let r = testauth("https://localhost:8080/api//", Some("tok".into()));
    assert_eq!(r.url, "https://localhost:8080/api/testauth");
    assert_eq!(r.authorization.as_deref(), Some("Bearer tok"));
    let r = testauth("", None);
    assert_eq!(r.url, "/testauth");
    assert!(r.authorization.is_none());
}

#[test]
fn testauth_results() {
    assert_eq!(testauth_result(200, String::new()), Ok("OK".to_string()));
    assert_eq!(testauth_result(204, "hi".into()), Ok("hi".to_string()));
    assert_eq!(testauth_result(401, "x".into()), Err("Unauthorized (401/403)".to_string()));
    assert_eq!(testauth_result(403, "".into()), Err("Unauthorized (401/403)".to_string()));
    assert_eq!(testauth_result(500, "boom".into()), Err("Err 500: boom".to_string()));
    assert_eq!(testauth_result(302, "".into()), Err("Err 302: ".to_string()));
}
