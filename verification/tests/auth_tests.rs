use assistant_core::auth::extract_bearer;
use assistant_core::auth::gate_check;
use assistant_core::auth::hash_password;
use assistant_core::auth::hashed_password_verifies;
use assistant_core::auth::issue_then_verify;
use assistant_core::auth::issue_token;
use assistant_core::auth::login_decision;
use assistant_core::auth::register_identity;
use assistant_core::auth::resolve_identity;
use assistant_core::auth::verify_password;
use assistant_core::auth::verify_token;
use assistant_core::auth::AuthError;
use assistant_core::auth::SESSION_TTL_SECS;
use assistant_core::models::LoginRequest;
use assistant_core::models::RegisterRequest;
use assistant_core::models::User;

const NOW: u64 = 1_700_000_000;

#[test]
fn password_round_trip() {
    let hash = hash_password("pw1");
    assert!(verify_password("pw1", &hash));
}

#[test]
fn password_round_trip_contract() {
    assert!(hashed_password_verifies("hunter2"));
}

#[test]
fn hashing_twice_differs() {
    let first = hash_password("same password");
    let second = hash_password("same password");
    assert_ne!(first, second);
    assert!(verify_password("same password", &first));
    assert!(verify_password("same password", &second));
}

#[test]
fn wrong_password_fails() {
    let hash = hash_password("right");
    assert!(!verify_password("wrong", &hash));
}

#[test]
fn malformed_hash_fails_closed() {
    assert!(!verify_password("pw", "not a phc string"));
    assert!(!verify_password("pw", ""));
}

#[test]
fn token_round_trip_before_expiry() {
    let token = issue_token("user-1", "secret", NOW);
    assert_eq!(verify_token(&token, "secret", NOW + 60), Ok("user-1".to_string()));
}

#[test]
fn token_round_trip_contract() {
    let r = issue_then_verify("user-2", "secret", NOW, NOW + SESSION_TTL_SECS - 1);
    assert_eq!(r, Ok("user-2".to_string()));
}

#[test]
fn token_expires_after_seven_days() {
    let token = issue_token("user-1", "secret", NOW);
    assert_eq!(
        verify_token(&token, "secret", NOW + SESSION_TTL_SECS),
        Err(AuthError::ExpiredToken)
    );
    assert_eq!(
        issue_then_verify("user-1", "secret", NOW, NOW + SESSION_TTL_SECS),
        Err(AuthError::ExpiredToken)
    );
}

#[test]
fn foreign_secret_rejected() {
    let token = issue_token("user-1", "secret-a", NOW);
    assert_eq!(verify_token(&token, "secret-b", NOW + 1), Err(AuthError::InvalidToken));
}

#[test]
fn malformed_token_rejected() {
    assert_eq!(verify_token("", "secret", NOW), Err(AuthError::InvalidToken));
    assert_eq!(verify_token("a.b.c", "secret", NOW), Err(AuthError::InvalidToken));
    let token = issue_token("user-1", "secret", NOW);
    let tampered = format!("{}x", token);
    assert_eq!(verify_token(&tampered, "secret", NOW), Err(AuthError::InvalidToken));
}

#[test]
fn bearer_extraction() {
    assert_eq!(extract_bearer(None), Err(AuthError::MissingToken));
    assert_eq!(extract_bearer(Some("Basic abc")), Err(AuthError::MissingToken));
    assert_eq!(extract_bearer(Some("Bearer")), Err(AuthError::MissingToken));
    assert_eq!(extract_bearer(Some("Bearer abc.def")), Ok("abc.def".to_string()));
    assert_eq!(extract_bearer(Some("Bearer ")), Ok("".to_string()));
}

#[test]
fn gate_accepts_fresh_bearer_token() {
    let token = issue_token("user-9", "secret", NOW);
    let header = format!("Bearer {}", token);
    assert_eq!(gate_check(Some(&header), "secret", NOW + 5), Ok("user-9".to_string()));
}

#[test]
fn gate_rejects_before_any_handler_logic() {
    assert_eq!(gate_check(None, "secret", NOW), Err(AuthError::MissingToken));
    let token = issue_token("user-9", "other-secret", NOW);
    let header = format!("Bearer {}", token);
    assert_eq!(gate_check(Some(&header), "secret", NOW), Err(AuthError::InvalidToken));
    assert_eq!(
        gate_check(Some(&header), "other-secret", NOW + SESSION_TTL_SECS + 1),
        Err(AuthError::ExpiredToken)
    );
}

#[test]
fn unknown_identity_collapses_to_unauthenticated() {
    let miss: Option<User> = None;
    match resolve_identity(miss) {
        Err(AuthError::UnknownIdentity) => {}
        other => panic!("unexpected gate outcome: {:?}", other.map(|u| u.id)),
    }
}

#[test]
fn register_then_login_resolves_same_identity() {
    let req = RegisterRequest { email: "a@x.com".to_string(), password: "pw1".to_string() };
    let user = register_identity("id-123".to_string(), &req, NOW);
    assert_eq!(user.email, "a@x.com");
    let login = LoginRequest { email: "a@x.com".to_string(), password: "pw1".to_string() };
    let token =
        login_decision(Some(user), &login, "secret", NOW).expect("login should succeed");
    assert_eq!(verify_token(&token, "secret", NOW + 10), Ok("id-123".to_string()));
}

#[test]
fn wrong_password_and_unknown_email_reject_identically() {
    let req = RegisterRequest { email: "a@x.com".to_string(), password: "pw1".to_string() };
    let user = register_identity("id-123".to_string(), &req, NOW);
    let bad_password = LoginRequest { email: "a@x.com".to_string(), password: "pw2".to_string() };
    let wrong_password = login_decision(Some(user), &bad_password, "secret", NOW);
    let other_email = LoginRequest { email: "b@x.com".to_string(), password: "pw1".to_string() };
    let unknown_email = login_decision(None, &other_email, "secret", NOW);
    assert_eq!(wrong_password, unknown_email);
    assert_eq!(wrong_password, Err(AuthError::UnknownIdentity));
}
