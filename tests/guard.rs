use authcore::error::{map_error, DomainError};
use authcore::guard::{bearer_token, constant_time_eq, keys_match, ApiKey, BearerGuard, Rejection, ServiceKeyGuard};
use authcore::token::{sign_token, TokenAuthority};

const NOW: usize = 1_700_000_000;

fn bearer_guard() -> BearerGuard {
    BearerGuard::new(TokenAuthority::new("signing-secret".to_string()))
}

#[test]
fn service_key_accepts_exact_match_only() {
    let guard = ServiceKeyGuard::new(Some("s3rvice-key".to_string()));
    assert_eq!(guard.check(Some("s3rvice-key")), Ok(ApiKey));
    assert_eq!(guard.check(Some("s3rvice-kez")), Err(Rejection::Unauthorized));
    assert_eq!(guard.check(Some("s3rvice-key ")), Err(Rejection::Unauthorized));
    assert_eq!(guard.check(Some("")), Err(Rejection::Unauthorized));
    assert_eq!(guard.check(None), Err(Rejection::Unauthorized));
}

#[test]
fn unconfigured_service_key_is_internal_error() {
    let guard = ServiceKeyGuard::new(None);
    let rejection = guard.check(Some("s3rvice-key")).unwrap_err();
    assert_eq!(rejection, Rejection::Misconfigured);
    assert_eq!(rejection.status(), 500);
    let kind = rejection.kind();
    assert!(matches!(kind, DomainError::Unexpected(_)));
    assert_eq!(map_error(kind).0, 500);
}

#[test]
fn wrong_scheme_is_missing_credential() {
    let r = bearer_guard().check(Some("Basic xyz"), NOW);
    assert_eq!(r, Err(Rejection::MissingCredential));
    assert_eq!(Rejection::MissingCredential.status(), 401);
    assert_eq!(map_error(Rejection::MissingCredential.kind()), (401, "unauthorized".to_string()));
}

#[test]
fn absent_authorization_is_missing_credential() {
    assert_eq!(bearer_guard().check(None, NOW), Err(Rejection::MissingCredential));
    assert_eq!(bearer_guard().check(Some("Bearer"), NOW), Err(Rejection::MissingCredential));
    assert_eq!(bearer_guard().check(Some("bearer abc"), NOW), Err(Rejection::MissingCredential));
}

#[test]
fn bad_bearer_token_is_unauthorized() {
    assert_eq!(bearer_guard().check(Some("Bearer abc.def.ghi"), NOW), Err(Rejection::Unauthorized));
    assert_eq!(bearer_guard().check(Some("Bearer "), NOW), Err(Rejection::Unauthorized));
    assert_eq!(Rejection::Unauthorized.status(), 401);
    assert_eq!(Rejection::Unauthorized.kind(), DomainError::Unauthorized);
}

#[test]
fn valid_bearer_token_yields_claims() {
    let auth = TokenAuthority::new("signing-secret".to_string());
    let token = sign_token(&auth, 9, "alice".to_string(), NOW).unwrap();
    let header = format!("Bearer {}", token);
    let claims = bearer_guard().check(Some(&header), NOW + 60).expect("accepted");
    assert_eq!(claims.sub, 9);
    assert_eq!(claims.username, "alice");
}

#[test]
fn expired_bearer_token_is_unauthorized() {
    let auth = TokenAuthority::new("signing-secret".to_string());
    let token = sign_token(&auth, 9, "alice".to_string(), NOW).unwrap();
    let header = format!("Bearer {}", token);
    assert_eq!(bearer_guard().check(Some(&header), NOW + 86400), Err(Rejection::Unauthorized));
}

#[test]
fn bearer_prefix_is_stripped() {
    assert_eq!(bearer_token("Bearer abc"), Some("abc"));
    assert_eq!(bearer_token("Bearer "), Some(""));
    assert_eq!(bearer_token("Bearer  two"), Some(" two"));
    assert_eq!(bearer_token("Basic xyz"), None);
    assert_eq!(bearer_token("Bear"), None);
    assert_eq!(bearer_token(""), None);
    assert_eq!(bearer_token("Bearer é→ü"), Some("é→ü"));
}

#[test]
fn constant_time_comparison_is_plain_equality() {
    assert!(constant_time_eq(b"abc", b"abc"));
    assert!(!constant_time_eq(b"abc", b"abd"));
    assert!(!constant_time_eq(b"abc", b"ab"));
    assert!(constant_time_eq(b"", b""));
    assert!(keys_match("ключ", "ключ"));
    assert!(!keys_match("ключ", "ключи"));
}
