use freelance_market::error::MyError;
use freelance_market::web::mw_auth::{mw_require_auth, session_of};
use freelance_market::web::token::{
    cookie_of, generate_auth_cookie, generate_token, read_token, AuthConfig, Claims,
};

const NOW: u64 = 1_700_000_000;

fn audience() -> Vec<String> {
    vec!["http://localhost:8080".to_string()]
}

#[test]
fn claims_expire_after_the_lifetime() {
    let claims = Claims::new("7".to_string(), 24 * 3600, NOW);
    assert_eq!(claims.sub, "7");
    assert_eq!(claims.iat, NOW);
    assert_eq!(claims.exp, NOW + 86_400);
    assert_eq!(claims.aud, "http://localhost:8080");
    assert_eq!(claims.iss, "");
}

#[test]
fn a_token_is_good_for_a_day_by_default() {
    let token = generate_token("1".to_string(), None, "secret", NOW).unwrap();
    let claims = read_token(&token, "secret", &audience()).unwrap();
    assert_eq!(claims.sub, "1");
    assert_eq!(claims.iat, NOW);
    assert_eq!(claims.exp, NOW + 86_400);
    let token = generate_token("1".to_string(), Some(60), "secret", NOW).unwrap();
    let claims = read_token(&token, "secret", &audience()).unwrap();
    assert_eq!(claims.exp, NOW + 60);
}

#[test]
fn a_token_is_a_signature_over_its_claims() {
    let token = generate_token("1".to_string(), None, "secret", NOW).unwrap();
    assert_eq!(token.split('.').count(), 3);
    assert_ne!(token, "1");
    assert_ne!(token, "secret");
    // the same claims under the same secret give the same token
    assert_eq!(token, generate_token("1".to_string(), None, "secret", NOW).unwrap());
    assert_ne!(token, generate_token("2".to_string(), None, "secret", NOW).unwrap());
    assert_ne!(token, generate_token("1".to_string(), None, "other", NOW).unwrap());
    assert_ne!(token, generate_token("1".to_string(), None, "secret", NOW + 1).unwrap());
}

#[test]
fn a_token_past_the_largest_time_is_not_made() {
    assert_eq!(generate_token("1".to_string(), Some(u64::MAX), "secret", 1), None);
    assert_eq!(generate_auth_cookie("1".to_string(), Some(u64::MAX), "secret", 1), None);
    assert!(generate_token("1".to_string(), Some(u64::MAX - 1), "secret", 1).is_some());
}

#[test]
fn a_token_is_read_only_under_its_secret_and_for_its_audience() {
    let token = generate_token("1".to_string(), None, "secret", NOW).unwrap();
    assert!(read_token(&token, "secret", &audience()).is_some());
    assert!(read_token(&token, "other", &audience()).is_none());
    assert!(read_token(&token, "secret", &vec!["elsewhere".to_string()]).is_none());
    assert!(read_token(
        &token,
        "secret",
        &vec!["elsewhere".to_string(), "http://localhost:8080".to_string()]
    )
    .is_some());
    assert!(read_token("not a token", "secret", &audience()).is_none());
    assert!(read_token("", "secret", &audience()).is_none());
    let mut forged = token.clone();
    forged.push('x');
    assert!(read_token(&forged, "secret", &audience()).is_none());
}

#[test]
fn reading_a_token_does_not_look_at_its_expiry() {
    let token = generate_token("1".to_string(), Some(1), "secret", 10).unwrap();
    let claims = read_token(&token, "secret", &audience()).unwrap();
    assert_eq!(claims.exp, 11);
}

#[test]
fn the_cookie_carries_the_token() {
    let cookie = generate_auth_cookie("1".to_string(), None, "secret", NOW).unwrap();
    assert_eq!(cookie.name, "auth-token");
    assert_eq!(cookie.value, generate_token("1".to_string(), None, "secret", NOW).unwrap());
    assert_eq!(cookie_of(None), None);
    let made = cookie_of(Some("abc".to_string())).unwrap();
    assert_eq!(made.name, "auth-token");
    assert_eq!(made.value, "abc");
}

#[test]
fn the_guard_lets_in_a_good_session_only() {
    let token = generate_token("1".to_string(), Some(100), "secret", NOW).unwrap();
    let session = mw_require_auth(Some(&token), "secret", &audience(), NOW).unwrap();
    assert_eq!(session.sub, "1");
    // one second before the expiry
    assert!(mw_require_auth(Some(&token), "secret", &audience(), NOW + 99).is_ok());
    // at the expiry, and after it
    assert_eq!(mw_require_auth(Some(&token), "secret", &audience(), NOW + 100), Err(401));
    assert_eq!(mw_require_auth(Some(&token), "secret", &audience(), NOW + 101), Err(401));
    // no cookie, a forged cookie, another secret, another audience
    assert_eq!(mw_require_auth(None, "secret", &audience(), NOW), Err(401));
    assert_eq!(mw_require_auth(Some("x.y.z"), "secret", &audience(), NOW), Err(401));
    assert_eq!(mw_require_auth(Some(&token), "other", &audience(), NOW), Err(401));
    assert_eq!(
        mw_require_auth(Some(&token), "secret", &vec!["elsewhere".to_string()], NOW),
        Err(401)
    );
}

#[test]
fn a_session_is_good_until_its_expiry() {
    let claims = Claims::new("1".to_string(), 10, 100);
    assert!(session_of(Some(Claims::new("1".to_string(), 10, 100)), 109).is_ok());
    assert_eq!(session_of(Some(Claims::new("1".to_string(), 10, 100)), 110), Err(401));
    assert_eq!(session_of(None, 0), Err(401));
    assert_eq!(session_of(Some(claims), 0).unwrap().exp, 110);
}

#[test]
fn the_configuration_of_tokens_comes_from_the_settings() {
    let settings = vec![
        ("AUTH_SECRET".to_string(), "s3cr3t".to_string()),
        ("AUTH_AUDIENCE".to_string(), "a,b,,c".to_string()),
    ];
    let auth = AuthConfig::init(&settings).unwrap();
    assert_eq!(auth.secret, "s3cr3t");
    assert_eq!(auth.audience, vec!["a", "b", "", "c"]);
    let auth = AuthConfig::init(&vec![("AUTH_SECRET".to_string(), "s".to_string())]).unwrap();
    assert_eq!(auth.audience, vec![""]);
    assert_eq!(
        AuthConfig::init(&vec![]),
        Err(MyError::MongoError("AUTH_SECRET must be set.".to_string()))
    );
}
