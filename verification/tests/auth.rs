use sbom_backend::auth::claims_util::{
    check_oidc_status, find_key, invalid_token_error, kid_or_default, next_claims_action, token_kid,
    update_oidc_key, use_secure_client, user_claims_from, ClaimsAction, ClaimsStep,
};
use sbom_backend::auth::claims_util::{check_token, claims_outcome, require_security, TokenCheck};
use sbom_backend::model::common::UserClaims;
use sbom_backend::auth::oauth::OauthKeySmall;
use sbom_backend::model::common::{ClaimsZit, ZitOauthKey};

fn key(kid: &str, n: &str, e: &str) -> OauthKeySmall {
    OauthKeySmall { kid: kid.to_string(), n: n.to_string(), e: e.to_string() }
}

#[test]
fn the_key_id_comes_from_the_header() {
    assert_eq!(token_kid("eyJhbGciOiJSUzI1NiIsImtpZCI6ImFiYyJ9.e30.c2ln").ok().unwrap(), "abc");
    assert_eq!(token_kid("eyJhbGciOiJSUzI1NiIsInR5cCI6IkpXVCJ9.e30.c2ln").ok().unwrap(), "NO KID");
    let e = token_kid("not-a-token").err().unwrap();
    assert_eq!((e.title.as_str(), e.status), ("Error", 500));
    assert_eq!(kid_or_default(Some("k".to_string())), "k");
    assert_eq!(kid_or_default(None), "NO KID");
}

#[test]
fn the_first_cached_key_with_the_id_is_used() {
    let keys = vec![key("a", "n1", "e1"), key("b", "n2", "e2"), key("b", "n3", "e3")];
    assert_eq!(find_key(&keys, "b"), ("n2".to_string(), "e2".to_string()));
    assert_eq!(find_key(&keys, "z"), (String::new(), String::new()));
}

#[test]
fn the_security_role_is_kept() {
    let claims = ClaimsZit {
        sub: "user".to_string(),
        exp: 10,
        roles: Some(vec![("reader".to_string(), vec![]), ("security".to_string(), vec![("org".to_string(), "x".to_string())])]),
    };
    let u = user_claims_from(claims);
    assert_eq!(u.sub, "user");
    assert!(u.security);
    let none = user_claims_from(ClaimsZit { sub: "u".to_string(), exp: 1, roles: None });
    assert!(!none.security);
    let other = user_claims_from(ClaimsZit { sub: "u".to_string(), exp: 1, roles: Some(vec![("securities".to_string(), vec![])]) });
    assert!(!other.security);
}

#[test]
fn a_failed_check_is_retried_once() {
    assert!(matches!(next_claims_action(ClaimsStep::FirstAttempt, true), ClaimsAction::Accept));
    assert!(matches!(next_claims_action(ClaimsStep::FirstAttempt, false), ClaimsAction::RefreshKeysAndRetry));
    assert!(matches!(next_claims_action(ClaimsStep::Retried, false), ClaimsAction::Reject));
    assert!(matches!(next_claims_action(ClaimsStep::Retried, true), ClaimsAction::Accept));
}

#[test]
fn keys_are_fetched_securely_only_in_production() {
    assert!(use_secure_client("true"));
    assert!(!use_secure_client("false"));
    assert!(!use_secure_client("TRUE"));
}

#[test]
fn the_key_request_must_succeed() {
    assert!(check_oidc_status(200).is_ok());
    let e = check_oidc_status(500).err().unwrap();
    assert_eq!((e.title.as_str(), e.status), ("Impossible to fetch token", 401));
    let e = invalid_token_error();
    assert_eq!((e.title.as_str(), e.status), ("InvalidToken", 500));
}

#[test]
fn a_refresh_caches_the_published_keys() {
    let published = vec![
        ZitOauthKey { usage: "sig".to_string(), kty: "RSA".to_string(), kid: "k1".to_string(), alg: "RS256".to_string(), n: "n1".to_string(), e: "AQAB".to_string() },
        ZitOauthKey { usage: "sig".to_string(), kty: "RSA".to_string(), kid: "k2".to_string(), alg: "RS256".to_string(), n: "n2".to_string(), e: "AQAB".to_string() },
    ];
    let cache = update_oidc_key(&published);
    let got: Vec<(&str, &str, &str)> = cache.iter().map(|k| (k.kid.as_str(), k.n.as_str(), k.e.as_str())).collect();
    assert_eq!(got, vec![("k1", "n1", "AQAB"), ("k2", "n2", "AQAB")]);
    assert_eq!(find_key(&cache, "k2").0, "n2");
}

#[test]
fn a_check_decides_the_token_check() {
    assert!(matches!(claims_outcome(ClaimsStep::FirstAttempt, TokenCheck::Holds), Ok(ClaimsAction::Accept)));
    assert!(matches!(claims_outcome(ClaimsStep::Retried, TokenCheck::Holds), Ok(ClaimsAction::Accept)));
    assert!(matches!(
        claims_outcome(ClaimsStep::FirstAttempt, TokenCheck::Refused),
        Ok(ClaimsAction::RefreshKeysAndRetry)
    ));
    let e = claims_outcome(ClaimsStep::Retried, TokenCheck::Refused).err().unwrap();
    assert_eq!((e.title.as_str(), e.status), ("Error", 500));
    let e = claims_outcome(ClaimsStep::FirstAttempt, TokenCheck::KeyRefused).err().unwrap();
    assert_eq!((e.title.as_str(), e.status), ("Error", 500));
}

/// A token whose header reads `{"alg":"RS256","kid":"k1"}`, with an empty payload and
/// a signature that no key makes.
const FORGED: &str = "eyJhbGciOiJSUzI1NiIsImtpZCI6ImsxIn0.e30.AAAA";

#[test]
fn a_token_is_checked_under_the_cached_key_of_its_id() {
    let e = check_token("not-a-token", &vec![], "aud", "iss", true, ClaimsStep::FirstAttempt).err().unwrap();
    assert_eq!((e.title.as_str(), e.status), ("Error", 500));
    let keys = vec![key("k1", "AQAB", "AQAB")];
    assert!(matches!(
        check_token(FORGED, &keys, "aud", "iss", true, ClaimsStep::FirstAttempt),
        Ok(ClaimsAction::RefreshKeysAndRetry)
    ));
    let e = check_token(FORGED, &keys, "aud", "iss", true, ClaimsStep::Retried).err().unwrap();
    assert_eq!((e.title.as_str(), e.status), ("Error", 500));
    assert!(matches!(
        check_token(FORGED, &keys, "aud", "iss", false, ClaimsStep::FirstAttempt),
        Ok(ClaimsAction::RefreshKeysAndRetry)
    ));
    let bad = vec![key("k1", "!!", "AQAB")];
    let e = check_token(FORGED, &bad, "aud", "iss", true, ClaimsStep::FirstAttempt).err().unwrap();
    assert_eq!((e.title.as_str(), e.status), ("Error", 500));
}

#[test]
fn only_the_security_role_may_write() {
    let admin = UserClaims { sub: "a".to_string(), security: true };
    assert!(require_security(&admin, "Non autorisé".to_string()).is_ok());
    let user = UserClaims { sub: "u".to_string(), security: false };
    let e = require_security(&user, "Non autorisé".to_string()).err().unwrap();
    assert_eq!((e.title.as_str(), e.status), ("Non autorisé", 401));
}
