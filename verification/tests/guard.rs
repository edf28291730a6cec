use auth0_flow::apis::{GetHelloResponse, GetTestauthResponse};
use auth0_flow::apis::Default as Operations;
use auth0_flow::jwks::{decoding_key, select_jwk, token_kid, AuthError, Jwk, JwkSet};
use auth0_flow::middleware::{bearer_token_of, get_cfg, is_public, ArgsAuth0, AuthDecision, AuthLayer};
use auth0_flow::server::{ArgsAuth0 as ServerArgs, MyApi};

fn jwk(kid: Option<&str>, n: Option<&str>, e: Option<&str>) -> Jwk {
    Jwk { kid: kid.map(String::from), n: n.map(String::from), e: e.map(String::from) }
}

#[test]
fn public_paths_and_bearer_tokens() {
    let layer = AuthLayer { public_paths: vec!["/hello", "/health"] };
    let mw = layer.layer(7u8);
    assert_eq!(mw.inner, 7);
    assert_eq!(mw.public_paths, vec!["/hello", "/health"]);
    assert!(is_public(&mw.public_paths, "/hello"));
    assert!(is_public(&mw.public_paths, "/hellothere"));
    assert!(!is_public(&mw.public_paths, "/testauth"));
    assert!(!is_public(&mw.public_paths, "/hell"));
    assert!(matches!(mw.decide("/health/db", None), AuthDecision::Forward));
    assert!(matches!(mw.decide("/testauth", None), AuthDecision::Reject));
    assert!(matches!(mw.decide("/testauth", Some("Basic abc")), AuthDecision::Reject));
    assert!(matches!(mw.decide("/testauth", Some("bearer abc")), AuthDecision::Reject));
    match mw.decide("/testauth", Some("Bearer abc.def")) {
        AuthDecision::Verify(t) => assert_eq!(t, "abc.def"),
        _ => panic!("expected a token to verify"),
    }
    assert_eq!(bearer_token_of("Bearer "), Some(String::new()));
    assert_eq!(bearer_token_of("Bearer"), None);
}

#[test]
fn verification_result_decides() {
    assert!(matches!(AuthDecision::Verify("t".into()).resolve(true), AuthDecision::Forward));
    assert!(matches!(AuthDecision::Verify("t".into()).resolve(false), AuthDecision::Reject));
    assert!(matches!(AuthDecision::Forward.resolve(false), AuthDecision::Forward));
    assert!(matches!(AuthDecision::Reject.resolve(true), AuthDecision::Reject));
}

#[test]
fn stored_settings() {
    let cfg = ArgsAuth0 { auth0_audience: "aud".into(), auth0_jwks: "https://t/.well-known/jwks.json".into() };
    assert_eq!(get_cfg(Some(&cfg)).auth0_audience, "aud");
}

#[test]
fn key_selection() {
    let set = JwkSet {
        keys: Some(vec![
            jwk(None, Some("n0"), Some("e0")),
            jwk(Some("k1"), Some("n1"), Some("e1")),
            jwk(Some("k1"), Some("n2"), Some("e2")),
            jwk(Some("k2"), None, Some("e3")),
            jwk(Some("k3"), Some("n4"), None),
        ]),
    };
    let c = select_jwk(&set, "k1").ok().unwrap();
    assert_eq!((c.n.as_str(), c.e.as_str()), ("n1", "e1"));
    assert_eq!(select_jwk(&set, "k2").err(), Some(AuthError::MissingModulus));
    assert_eq!(select_jwk(&set, "k3").err(), Some(AuthError::MissingExponent));
    assert_eq!(select_jwk(&set, "k9").err(), Some(AuthError::KeyNotFound));
    assert_eq!(select_jwk(&JwkSet { keys: None }, "k1").err(), Some(AuthError::NoKeys));
    assert_eq!(select_jwk(&JwkSet { keys: Some(vec![]) }, "k1").err(), Some(AuthError::KeyNotFound));
}

#[test]
fn decoding_keys() {
    let good = JwkSet { keys: Some(vec![jwk(Some("k"), Some("AQAB"), Some("AQAB"))]) };
    assert!(decoding_key(&good, "k").is_ok());
    let bad = JwkSet { keys: Some(vec![jwk(Some("k"), Some("!!"), Some("AQAB"))]) };
    match decoding_key(&bad, "k").err() {
        Some(AuthError::InvalidDecodingKey(m)) => assert!(!m.is_empty()),
        _ => panic!("expected an invalid key"),
    }
    assert_eq!(decoding_key(&good, "x").err(), Some(AuthError::KeyNotFound));
}

#[test]
fn key_id_of_token_header() {
    // {"alg":"RS256","typ":"JWT","kid":"key-1"}
    let with_kid = "eyJhbGciOiJSUzI1NiIsInR5cCI6IkpXVCIsImtpZCI6ImtleS0xIn0.e30.c2ln";
    assert_eq!(token_kid(with_kid), Ok("key-1".to_string()));
    // {"alg":"RS256","typ":"JWT"}
    let without_kid = "eyJhbGciOiJSUzI1NiIsInR5cCI6IkpXVCJ9.e30.c2ln";
    assert_eq!(token_kid(without_kid), Err(AuthError::MissingKid));
    match token_kid("not a token") {
        Err(AuthError::InvalidHeader(m)) => {
            assert_eq!(m, jsonwebtoken::decode_header("not a token").unwrap_err().to_string())
        }
        _ => panic!("expected an invalid header"),
    }
}

#[test]
fn server_operations() {
    let api = MyApi;
    match Operations::get_hello(&api) {
        Ok(GetHelloResponse::Status200_AJSONObjectWithAGreetingMessage(b)) => {
            assert_eq!(b.message.as_deref(), Some("hello"))
        }
        _ => panic!("expected a greeting"),
    }
    match Operations::get_testauth(&api) {
        Ok(GetTestauthResponse::Status200_SuccessfullyRetrievedUserInformation(b)) => {
            assert_eq!(b.login.as_deref(), Some("test"));
            assert_eq!(b.sub.as_deref(), Some("test sub"));
        }
        _ => panic!("expected the test user"),
    }
}

#[test]
fn server_token_form() {
    let api = MyApi;
    assert_eq!(api.token_form(None, "c").err().as_deref(), Some("Auth0 configuration not initialized"));
    let cfg = ServerArgs {
        auth0_domain: "tenant".into(),
        auth0_client_id: "cid".into(),
        auth0_client_secret: "SECRET".into(),
        auth0_redirect_uri: "http://localhost:3000/callback".into(),
        auth0_response_type: "code".into(),
        auth0_scope: "openid".into(),
    };
    let f = api.token_form(Some(&cfg), "CODE").ok().unwrap();
    assert_eq!(f.url, "https://tenant/oauth/token");
    let expected: Vec<(String, String)> = vec![
        ("grant_type".into(), "authorization_code".into()),
        ("code".into(), "CODE".into()),
        ("client_id".into(), "cid".into()),
        ("client_secret".into(), "SECRET".into()),
        ("redirect_uri".into(), "http://localhost:3000/callback".into()),
    ];
    assert_eq!(f.params, expected);
    assert_eq!(MyApi::exchange_failure("400 Bad Request", "x"), "Token exchange failed with status 400 Bad Request: x");
}

#[test]
fn error_messages() {
    assert_eq!(AuthError::InvalidHeader("x".into()).message(), "Invalid token header: x");
    assert_eq!(AuthError::MissingKid.message(), "Missing `kid` in token header");
    assert_eq!(AuthError::JwksUnavailable("timeout".into()).message(), "timeout");
    assert_eq!(AuthError::NoKeys.message(), "No 'keys' in JWKS");
    assert_eq!(AuthError::KeyNotFound.message(), "Matching JWK not found");
    assert_eq!(AuthError::MissingModulus.message(), "Missing 'n'");
    assert_eq!(AuthError::MissingExponent.message(), "Missing 'e'");
    assert_eq!(AuthError::InvalidDecodingKey("y".into()).message(), "Invalid decoding key: y");
    assert_eq!(AuthError::ValidationFailed("z".into()).message(), "Token validation failed: z");
}
