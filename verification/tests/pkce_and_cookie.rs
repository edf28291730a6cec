use auth0_flow::cookie::{cookie_value_in, verifier_cookie, PKCE_COOKIE_NAME};
use auth0_flow::pkce::{generate_code_challenge, generate_code_verifier};

fn is_unreserved(c: char) -> bool {
    c.is_ascii_alphanumeric() || c == '-' || c == '.' || c == '_' || c == '~'
}

#[test]
fn challenge_of_rfc7636_example() {
    let challenge = generate_code_challenge("dBjftJeZ4CVP-mB92K27uhbUJU1p1r_wW1gFWFOEjXk");
    assert_eq!(challenge, "E9Melhoa2OwvFrEMTJguCHaoeK1t8URWbuGJSstw-cM");
}

#[test]
fn verifier_is_valid_pkce_verifier() {
    let v = generate_code_verifier();
    assert_eq!(v.len(), 43);
    assert!(v.chars().all(is_unreserved));
    let c = generate_code_challenge(&v);
    assert_eq!(c.len(), 43);
    assert!(c.chars().all(|ch| ch.is_ascii_alphanumeric() || ch == '-' || ch == '_'));
}

#[test]
fn verifiers_are_fresh() {
    assert_ne!(generate_code_verifier(), generate_code_verifier());
}

#[test]
fn verifier_cookie_text() {
    assert_eq!(
        verifier_cookie("abc"),
        "pkce_verifier=abc; Path=/; Max-Age=300; SameSite=Lax"
    );
}

#[test]
fn written_cookie_is_read_back() {
    let v = generate_code_verifier();
    let cookie = verifier_cookie(&v);
    assert_eq!(cookie_value_in(&cookie, PKCE_COOKIE_NAME), Some(v.clone()));
    let jar = format!("theme=dark; session=x1; pkce_verifier={}; lang=pl", v);
    assert_eq!(cookie_value_in(&jar, PKCE_COOKIE_NAME), Some(v));
}

#[test]
fn cookie_lookup_cases() {
    assert_eq!(cookie_value_in("", "pkce_verifier"), None);
    assert_eq!(cookie_value_in("a=1; b=2", "pkce_verifier"), None);
    assert_eq!(cookie_value_in("a=1;b=2", "b"), Some("2".to_string()));
    assert_eq!(cookie_value_in("  a = 1 ", "a "), Some(" 1".to_string()));
    assert_eq!(cookie_value_in("a=x=y", "a"), Some("x=y".to_string()));
    assert_eq!(cookie_value_in("a; a=2", "a"), Some("2".to_string()));
    assert_eq!(cookie_value_in("a=1; a=2", "a"), Some("1".to_string()));
    assert_eq!(cookie_value_in("a=", "a"), Some(String::new()));
    assert_eq!(cookie_value_in("\u{3000}a=ł\t", "a"), Some("ł".to_string()));
    assert_eq!(cookie_value_in("ab=1", "a"), None);
}
