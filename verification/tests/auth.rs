use auth_service::domain::data_stores::BannedTokenStore;
use auth_service::domain::email::Email;
use auth_service::services::hashset_banned_token_store::HashsetBannedTokenStore;
use auth_service::services::password_hash::{compute_password_hash, verify_password_hash};
use auth_service::domain::password::Password;
use auth_service::utils::auth::{
    create_auth_cookie, generate_auth_cookie, generate_auth_token, jwt_cookie_name, validate_token,
    TokenVerifyError,
};

const SECRET: &[u8] = b"test-signing-secret";

#[test]
fn test_generate_auth_cookie() {
    let email = Email::parse("test@example.com".to_owned()).unwrap();
    let cookie = generate_auth_cookie(&email, SECRET).unwrap();
    assert_eq!(cookie.name, jwt_cookie_name());
    assert_eq!(cookie.value.split('.').count(), 3);
    assert_eq!(cookie.path, "/");
    assert!(cookie.http_only);
    assert!(cookie.same_site_lax);
}

#[test]
fn test_create_auth_cookie() {
    let token = "test_token".to_owned();
    let cookie = create_auth_cookie(token.clone());
    assert_eq!(cookie.name, "jwt");
    assert_eq!(cookie.value, token);
    assert_eq!(cookie.path, "/");
    assert!(cookie.http_only);
    assert!(cookie.same_site_lax);
}

#[test]
fn test_generate_auth_token() {
    let email = Email::parse("test@example.com".to_owned()).unwrap();
    let result = generate_auth_token(&email, SECRET).unwrap();
    assert_eq!(result.split('.').count(), 3);
}

#[test]
fn test_validate_token_with_valid_token() {
    let email = Email::parse("test@example.com".to_owned()).unwrap();
    let token = generate_auth_token(&email, SECRET).unwrap();
    let banned_token_store = HashsetBannedTokenStore::default();
    let result = validate_token(&token, &banned_token_store, SECRET).unwrap();
    assert_eq!(result.sub, "test@example.com");

    let exp = chrono::Utc::now()
        .checked_add_signed(chrono::Duration::try_minutes(9).expect("valid duration"))
        .expect("valid timestamp")
        .timestamp();

    assert!(result.exp > exp as usize);
}

#[test]
fn test_validate_token_with_invalid_token() {
    let token = "invalid_token".to_owned();
    let banned_token_store = HashsetBannedTokenStore::default();
    let result = validate_token(&token, &banned_token_store, SECRET);
    assert!(result.is_err());
}

#[test]
fn test_validate_token_with_banned_token() {
    let email = Email::parse("test@example.com".to_owned()).unwrap();
    let token = generate_auth_token(&email, SECRET).unwrap();
    let mut banned_token_store = HashsetBannedTokenStore::default();
    banned_token_store.add_token(token.clone()).unwrap();
    let result = validate_token(&token, &banned_token_store, SECRET);
    assert!(result.is_err());
}

#[test]
fn validate_token_rejects_a_token_signed_with_another_secret() {
    let email = Email::parse("test@example.com".to_owned()).unwrap();
    let token = generate_auth_token(&email, b"other-secret").unwrap();
    let banned_token_store = HashsetBannedTokenStore::default();
    let result = validate_token(&token, &banned_token_store, SECRET);
    assert_eq!(result.unwrap_err(), TokenVerifyError::Invalid);
}

#[test]
fn revoked_token_is_rejected_before_anything_else() {
    // Even a string that is not a token at all is refused as revoked once it
    // stands in the revocation store.
    let mut banned_token_store = HashsetBannedTokenStore::default();
    banned_token_store.add_token("not-even-a-jwt".to_owned()).unwrap();
    let result = validate_token("not-even-a-jwt", &banned_token_store, SECRET);
    assert_eq!(result.unwrap_err(), TokenVerifyError::Revoked);
}

#[test]
fn password_hash_round_trip() {
    let password = Password::parse("password123".to_owned()).unwrap();
    let hash = compute_password_hash(&password).unwrap();
    assert!(verify_password_hash(&hash, &password).is_ok());

    let wrong = Password::parse("password124".to_owned()).unwrap();
    assert!(verify_password_hash(&hash, &wrong).is_err());
}
