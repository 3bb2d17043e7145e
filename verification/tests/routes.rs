use auth_service::domain::data_stores::{BannedTokenStore, TwoFACodeStore};
use auth_service::domain::email::Email;
use auth_service::domain::error::AuthAPIError;
use auth_service::routes::login::{login, LoginRequest, LoginResponse};
use auth_service::routes::logout::logout;
use auth_service::routes::signup::{signup, SignupRequest};
use auth_service::routes::verify_2fa::{verify_2fa, Verify2FARequest};
use auth_service::routes::verify_token::{verify_token, VerifyTokenRequest};
use auth_service::services::hashmap_two_fa_code_store::HashmapTwoFACodeStore;
use auth_service::services::hashmap_user_store::HashmapUserStore;
use auth_service::services::hashset_banned_token_store::HashsetBannedTokenStore;
use auth_service::services::mock_email_client::MockEmailClient;

const SECRET: &[u8] = b"test-signing-secret";

fn store_with_user(email: &str, password: &str, requires_2fa: bool) -> HashmapUserStore {
    let mut store = HashmapUserStore::default();
    let request = SignupRequest {
        email: email.to_owned(),
        password: password.to_owned(),
        requires_2fa,
    };
    signup(&mut store, request).unwrap();
    store
}

#[test]
fn should_return_201_if_valid_input() {
    let mut store = HashmapUserStore::default();
    let request = SignupRequest {
        email: "a@b.com".to_owned(),
        password: "password123".to_owned(),
        requires_2fa: false,
    };
    let response = signup(&mut store, request).unwrap();
    assert_eq!(response.message, "User created successfully!");
}

#[test]
fn signup_should_return_400_if_invalid_input() {
    let cases = [
        ("no-at-sign.com", "password123"),
        ("", "password123"),
        ("a@b.com", "short"),
        ("a@b.com", ""),
    ];
    for (email, password) in cases {
        let mut store = HashmapUserStore::default();
        let request = SignupRequest {
            email: email.to_owned(),
            password: password.to_owned(),
            requires_2fa: false,
        };
        let err = signup(&mut store, request).unwrap_err();
        assert_eq!(err, AuthAPIError::InvalidCredentials);
        assert_eq!(err.response_parts().0, 400);
    }
}

#[test]
fn should_return_409_if_email_already_exists() {
    let mut store = HashmapUserStore::default();
    let first = SignupRequest {
        email: "a@b.com".to_owned(),
        password: "password123".to_owned(),
        requires_2fa: false,
    };
    signup(&mut store, first).unwrap();
    let second = SignupRequest {
        email: "a@b.com".to_owned(),
        password: "password456".to_owned(),
        requires_2fa: true,
    };
    let err = signup(&mut store, second).unwrap_err();
    assert_eq!(err, AuthAPIError::UserAlreadyExists);
    assert_eq!(err.response_parts().0, 409);
}

#[test]
fn login_should_return_400_if_invalid_input() {
    let user_store = store_with_user("a@b.com", "password123", false);
    let mut two_fa_store = HashmapTwoFACodeStore::default();
    let request = LoginRequest { email: "a@b.com".to_owned(), password: "short".to_owned() };
    let (cookie, result) = login(&user_store, &mut two_fa_store, &MockEmailClient, request, SECRET);
    assert!(cookie.is_none());
    let err = result.unwrap_err();
    assert_eq!(err, AuthAPIError::InvalidCredentials);
    assert_eq!(err.response_parts().0, 400);
}

#[test]
fn login_should_return_401_if_incorrect_credentials() {
    let user_store = store_with_user("a@b.com", "password123", false);
    let mut two_fa_store = HashmapTwoFACodeStore::default();

    let wrong_password =
        LoginRequest { email: "a@b.com".to_owned(), password: "password999".to_owned() };
    let (cookie, result) =
        login(&user_store, &mut two_fa_store, &MockEmailClient, wrong_password, SECRET);
    assert!(cookie.is_none());
    let err = result.unwrap_err();
    assert_eq!(err, AuthAPIError::IncorrectCredentials);
    assert_eq!(err.response_parts().0, 401);

    let unknown_user =
        LoginRequest { email: "c@d.com".to_owned(), password: "password123".to_owned() };
    let (cookie, result) =
        login(&user_store, &mut two_fa_store, &MockEmailClient, unknown_user, SECRET);
    assert!(cookie.is_none());
    assert_eq!(result.unwrap_err(), AuthAPIError::IncorrectCredentials);
}

#[test]
fn should_return_200_if_valid_credentials_and_2fa_disabled() {
    let user_store = store_with_user("a@b.com", "password123", false);
    let mut two_fa_store = HashmapTwoFACodeStore::default();
    let request = LoginRequest { email: "a@b.com".to_owned(), password: "password123".to_owned() };
    let (cookie, result) = login(&user_store, &mut two_fa_store, &MockEmailClient, request, SECRET);

    let response = result.unwrap();
    assert_eq!(response, LoginResponse::RegularAuth);
    assert_eq!(response.status_code(), 200);

    let cookie = cookie.unwrap();
    assert_eq!(cookie.name, "jwt");
    assert!(!cookie.value.is_empty());

    // The decoded claims' subject is the email that logged in.
    let banned = HashsetBannedTokenStore::default();
    let claims =
        auth_service::utils::auth::validate_token(&cookie.value, &banned, SECRET).unwrap();
    assert_eq!(claims.sub, "a@b.com");
}

#[test]
fn should_return_206_if_valid_credentials_and_2fa_enabled() {
    let user_store = store_with_user("a@b.com", "password123", true);
    let mut two_fa_store = HashmapTwoFACodeStore::default();
    let request = LoginRequest { email: "a@b.com".to_owned(), password: "password123".to_owned() };
    let (cookie, result) = login(&user_store, &mut two_fa_store, &MockEmailClient, request, SECRET);

    // The challenge-issued outcome never carries a cookie.
    assert!(cookie.is_none());
    let response = result.unwrap();
    assert_eq!(response.status_code(), 206);
    let two_fa = match response {
        LoginResponse::TwoFactorAuth(t) => t,
        LoginResponse::RegularAuth => panic!("expected the challenge-issued response"),
    };
    assert_eq!(two_fa.message, "2FA required");

    // A matching pending challenge became retrievable for that email.
    let email = Email::parse("a@b.com".to_owned()).unwrap();
    let (stored_id, _stored_code) = two_fa_store.get_code(&email).unwrap();
    assert_eq!(stored_id.as_ref(), &two_fa.login_attempt_id);
}

fn issued_challenge(
    user_store: &HashmapUserStore,
    two_fa_store: &mut HashmapTwoFACodeStore,
) -> (String, String) {
    let request = LoginRequest { email: "a@b.com".to_owned(), password: "password123".to_owned() };
    let (_, result) = login(user_store, two_fa_store, &MockEmailClient, request, SECRET);
    let response = match result.unwrap() {
        LoginResponse::TwoFactorAuth(t) => t,
        LoginResponse::RegularAuth => panic!("expected the challenge-issued response"),
    };
    let email = Email::parse("a@b.com".to_owned()).unwrap();
    let (_, stored_code) = two_fa_store.get_code(&email).unwrap();
    (response.login_attempt_id, stored_code.as_ref().clone())
}

#[test]
fn verify_2fa_should_return_400_if_invalid_input() {
    let mut two_fa_store = HashmapTwoFACodeStore::default();
    let cases = [
        ("not-an-email", "67e55044-10b1-426f-9247-bb680e5fe0c8", "123456"),
        ("a@b.com", "not-a-uuid", "123456"),
        ("a@b.com", "67e55044-10b1-426f-9247-bb680e5fe0c8", "12345"),
    ];
    for (email, id, code) in cases {
        let request = Verify2FARequest {
            email: email.to_owned(),
            login_attempt_id: id.to_owned(),
            two_fa_code: code.to_owned(),
        };
        let (cookie, result) = verify_2fa(&mut two_fa_store, request, SECRET);
        assert!(cookie.is_none());
        let err = result.unwrap_err();
        assert_eq!(err, AuthAPIError::InvalidCredentials);
        assert_eq!(err.response_parts().0, 400);
    }
}

#[test]
fn verify_2fa_should_return_401_if_incorrect_credentials() {
    let user_store = store_with_user("a@b.com", "password123", true);
    let mut two_fa_store = HashmapTwoFACodeStore::default();
    let (attempt_id, code) = issued_challenge(&user_store, &mut two_fa_store);

    let wrong_code = if code == "111111" { "222222" } else { "111111" };
    let request = Verify2FARequest {
        email: "a@b.com".to_owned(),
        login_attempt_id: attempt_id,
        two_fa_code: wrong_code.to_owned(),
    };
    let (cookie, result) = verify_2fa(&mut two_fa_store, request, SECRET);
    assert!(cookie.is_none());
    let err = result.unwrap_err();
    assert_eq!(err, AuthAPIError::IncorrectCredentials);
    assert_eq!(err.response_parts().0, 401);
}

#[test]
fn verify_2fa_requires_both_fields_to_match() {
    let user_store = store_with_user("a@b.com", "password123", true);
    let mut two_fa_store = HashmapTwoFACodeStore::default();
    let (attempt_id, code) = issued_challenge(&user_store, &mut two_fa_store);

    // Right code, wrong attempt id: refused.
    let other_id = "67e55044-10b1-426f-9247-bb680e5fe0c8".to_owned();
    if other_id != attempt_id {
        let request = Verify2FARequest {
            email: "a@b.com".to_owned(),
            login_attempt_id: other_id,
            two_fa_code: code.clone(),
        };
        let (_, result) = verify_2fa(&mut two_fa_store, request, SECRET);
        assert_eq!(result.unwrap_err(), AuthAPIError::IncorrectCredentials);
    }

    // Both right: accepted.
    let request = Verify2FARequest {
        email: "a@b.com".to_owned(),
        login_attempt_id: attempt_id,
        two_fa_code: code,
    };
    let (cookie, result) = verify_2fa(&mut two_fa_store, request, SECRET);
    assert!(result.is_ok());
    assert!(cookie.is_some());
}

#[test]
fn should_return_401_if_old_code() {
    let user_store = store_with_user("a@b.com", "password123", true);
    let mut two_fa_store = HashmapTwoFACodeStore::default();
    let (old_id, old_code) = issued_challenge(&user_store, &mut two_fa_store);
    // A second login overwrites the pending challenge.
    let (new_id, _new_code) = issued_challenge(&user_store, &mut two_fa_store);
    assert_ne!(old_id, new_id);

    let request = Verify2FARequest {
        email: "a@b.com".to_owned(),
        login_attempt_id: old_id,
        two_fa_code: old_code,
    };
    let (_, result) = verify_2fa(&mut two_fa_store, request, SECRET);
    assert_eq!(result.unwrap_err(), AuthAPIError::IncorrectCredentials);
}

#[test]
fn should_return_200_if_correct_code() {
    let user_store = store_with_user("a@b.com", "password123", true);
    let mut two_fa_store = HashmapTwoFACodeStore::default();
    let (attempt_id, code) = issued_challenge(&user_store, &mut two_fa_store);

    let request = Verify2FARequest {
        email: "a@b.com".to_owned(),
        login_attempt_id: attempt_id,
        two_fa_code: code,
    };
    let (cookie, result) = verify_2fa(&mut two_fa_store, request, SECRET);
    assert!(result.is_ok());
    let cookie = cookie.unwrap();
    assert_eq!(cookie.name, "jwt");
    assert!(!cookie.value.is_empty());

    let banned = HashsetBannedTokenStore::default();
    let claims =
        auth_service::utils::auth::validate_token(&cookie.value, &banned, SECRET).unwrap();
    assert_eq!(claims.sub, "a@b.com");
}

#[test]
fn should_return_401_if_same_code_twice() {
    let user_store = store_with_user("a@b.com", "password123", true);
    let mut two_fa_store = HashmapTwoFACodeStore::default();
    let (attempt_id, code) = issued_challenge(&user_store, &mut two_fa_store);

    let first = Verify2FARequest {
        email: "a@b.com".to_owned(),
        login_attempt_id: attempt_id.clone(),
        two_fa_code: code.clone(),
    };
    let (_, result) = verify_2fa(&mut two_fa_store, first, SECRET);
    assert!(result.is_ok());

    // The consumed challenge was removed, so replaying the same pair fails.
    let second = Verify2FARequest {
        email: "a@b.com".to_owned(),
        login_attempt_id: attempt_id,
        two_fa_code: code,
    };
    let (_, result) = verify_2fa(&mut two_fa_store, second, SECRET);
    assert_eq!(result.unwrap_err(), AuthAPIError::IncorrectCredentials);
}

fn issued_token() -> String {
    let email = Email::parse("a@b.com".to_owned()).unwrap();
    auth_service::utils::auth::generate_auth_token(&email, SECRET).unwrap()
}

#[test]
fn should_return_200_valid_token() {
    let banned = HashsetBannedTokenStore::default();
    let request = VerifyTokenRequest { token: issued_token() };
    assert!(verify_token(&banned, &request, SECRET).is_ok());
}

#[test]
fn verify_token_should_return_401_if_invalid_token() {
    let banned = HashsetBannedTokenStore::default();
    let request = VerifyTokenRequest { token: "invalid_token".to_owned() };
    let err = verify_token(&banned, &request, SECRET).unwrap_err();
    assert_eq!(err, AuthAPIError::InvalidToken);
    assert_eq!(err.response_parts().0, 401);
}

#[test]
fn should_return_401_if_banned_token() {
    let mut banned = HashsetBannedTokenStore::default();
    let token = issued_token();
    banned.add_token(token.clone()).unwrap();
    let request = VerifyTokenRequest { token };
    let err = verify_token(&banned, &request, SECRET).unwrap_err();
    assert_eq!(err, AuthAPIError::InvalidToken);
}

#[test]
fn should_return_400_if_jwt_cookie_missing() {
    let mut banned = HashsetBannedTokenStore::default();
    let err = logout(&mut banned, None, SECRET).unwrap_err();
    assert_eq!(err, AuthAPIError::MissingToken);
    assert_eq!(err.response_parts().0, 400);
}

#[test]
fn logout_should_return_401_if_invalid_token() {
    let mut banned = HashsetBannedTokenStore::default();
    let token = "invalid_token".to_owned();
    let err = logout(&mut banned, Some(&token), SECRET).unwrap_err();
    assert_eq!(err, AuthAPIError::InvalidToken);
    assert_eq!(err.response_parts().0, 401);
}

#[test]
fn should_return_200_if_valid_jwt_cookie() {
    let mut banned = HashsetBannedTokenStore::default();
    let token = issued_token();
    assert!(logout(&mut banned, Some(&token), SECRET).is_ok());
}

#[test]
fn should_return_400_if_logout_called_twice_in_a_row() {
    // After a successful logout the client's cookie is cleared, so the second
    // request arrives with no token at all.
    let mut banned = HashsetBannedTokenStore::default();
    let token = issued_token();
    assert!(logout(&mut banned, Some(&token), SECRET).is_ok());
    let err = logout(&mut banned, None, SECRET).unwrap_err();
    assert_eq!(err.response_parts().0, 400);
}

#[test]
fn logout_twice_with_same_token_yields_unauthorized() {
    // A client that somehow presents the same token again is refused, because
    // the first logout revoked it.
    let mut banned = HashsetBannedTokenStore::default();
    let token = issued_token();
    assert!(logout(&mut banned, Some(&token), SECRET).is_ok());
    let err = logout(&mut banned, Some(&token), SECRET).unwrap_err();
    assert_eq!(err, AuthAPIError::InvalidToken);
    assert_eq!(err.response_parts().0, 401);
}

#[test]
fn token_verifies_after_issue_and_fails_after_revoke() {
    let mut banned = HashsetBannedTokenStore::default();
    let token = issued_token();
    let request = VerifyTokenRequest { token: token.clone() };
    assert!(verify_token(&banned, &request, SECRET).is_ok());

    banned.add_token(token).unwrap();
    let err = verify_token(&banned, &request, SECRET).unwrap_err();
    assert_eq!(err.response_parts().0, 401);
}

#[test]
fn full_session_lifecycle() {
    let mut user_store = HashmapUserStore::default();
    let mut two_fa_store = HashmapTwoFACodeStore::default();
    let mut banned = HashsetBannedTokenStore::default();

    let request = SignupRequest {
        email: "a@b.com".to_owned(),
        password: "password123".to_owned(),
        requires_2fa: false,
    };
    let response = signup(&mut user_store, request).unwrap();
    assert_eq!(response.message, "User created successfully!");

    let request = LoginRequest { email: "a@b.com".to_owned(), password: "password123".to_owned() };
    let (cookie, result) = login(&user_store, &mut two_fa_store, &MockEmailClient, request, SECRET);
    assert_eq!(result.unwrap().status_code(), 200);
    let cookie = cookie.unwrap();

    let request = VerifyTokenRequest { token: cookie.value.clone() };
    assert!(verify_token(&banned, &request, SECRET).is_ok());

    assert!(logout(&mut banned, Some(&cookie.value), SECRET).is_ok());

    let err = verify_token(&banned, &request, SECRET).unwrap_err();
    assert_eq!(err.response_parts().0, 401);
}
