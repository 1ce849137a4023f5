use split_costs_rust_backend::extractors::session::{
    new_session_claims, session_claims_at, session_cookie, session_cookie_name, session_expiry, session_token_or_reject,
};
use split_costs_rust_backend::routes::Status;

#[test]
fn session_expiry_is_thirty_days_later() {
    assert_eq!(session_expiry(0), 2_592_000);
    assert_eq!(session_expiry(1_700_000_000), 1_700_000_000 + 30 * 24 * 3600);
    assert_eq!(session_expiry(-2_592_000), 0);
}

#[test]
fn session_claims_only_when_the_expiry_fits() {
    let claims = session_claims_at("a@b.io".to_string(), "Ann".to_string(), 7, 1_700_000_000).unwrap();
    assert_eq!(claims.exp, 1_702_592_000);
    assert_eq!(claims.id, 7);
    assert_eq!(claims.email, "a@b.io");
    assert_eq!(claims.display_name, "Ann");
    assert!(session_claims_at("a".to_string(), "b".to_string(), 1, -2_592_001).is_none());
    assert!(session_claims_at("a".to_string(), "b".to_string(), 1, i64::MAX).is_none());
}

#[test]
fn new_session_claims_keep_the_user() {
    let claims = new_session_claims("a@b.io".to_string(), "Ann".to_string(), 7, 100);
    assert_eq!(claims.exp, 2_592_100);
    assert_eq!(claims.id, 7);
    assert_eq!(claims.email, "a@b.io");
    assert_eq!(claims.display_name, "Ann");
}

#[test]
fn session_cookie_is_named_session_token() {
    assert_eq!(session_cookie_name(), "session_token");
    let (name, value) = session_cookie("tok.en.sig".to_string());
    assert_eq!(name, "session_token");
    assert_eq!(value, "tok.en.sig");
}

#[test]
fn request_without_session_cookie_is_unauthorized() {
    assert_eq!(session_token_or_reject(None), Err(Status::Unauthorized));
    assert_eq!(session_token_or_reject(Some("abc".to_string())), Ok("abc".to_string()));
}
