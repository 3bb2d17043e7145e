use auth_service::domain::data_stores::{LoginAttemptId, TwoFACode};
use auth_service::domain::email::Email;
use auth_service::domain::password::Password;
use auth_service::domain::user::User;

#[test]
fn test_parse_returns_ok_given_valid_email() {
    assert_eq!(Email::parse("foo@example.com".to_string()).is_ok(), true);
}

#[test]
fn test_parse_returns_err_given_invalid_email() {
    assert_eq!(Email::parse("fooexample.com".to_string()).is_err(), true);
}

#[test]
fn test_parse_returns_err_given_empty_email() {
    assert_eq!(Email::parse("".to_string()).is_err(), true);
}

#[test]
fn email_test_as_ref_works() {
    let expected = "foo@example.com";

    let email = Email::parse("foo@example.com".to_string()).unwrap();
    let actual = email.as_ref().as_str();

    assert_eq!(expected, actual);
}

#[test]
fn test_parse_returns_ok_given_valid_password() {
    let expected = true;
    let actual = Password::parse("12345678".to_owned()).is_ok();
    assert_eq!(actual, expected);
}

#[test]
fn test_parse_returns_err_given_invalid_password() {
    let expected = true;
    let actual = Password::parse("123".to_owned()).is_err();
    assert_eq!(actual, expected);
}

#[test]
fn password_test_as_ref_works() {
    let expected = "password12345";

    let password = Password::parse("password12345".to_owned()).unwrap();
    let actual = password.as_ref();

    assert_eq!(expected, actual.as_str());
}

#[test]
fn test_new_returns_a_user() {
    let expected = User::new(
        Email::parse("foo@example.com".to_string()).unwrap(),
        Password::parse("password123".to_string()).unwrap(),
        true,
    );

    let actual = User::new(
        Email::parse("foo@example.com".to_string()).unwrap(),
        Password::parse("password123".to_string()).unwrap(),
        true,
    );

    assert_eq!(actual, expected);
}

#[test]
fn password_of_exactly_seven_bytes_is_rejected() {
    assert!(Password::parse("1234567".to_owned()).is_err());
}

#[test]
fn two_fa_code_accepts_six_digit_values() {
    let code = TwoFACode::parse("123456".to_owned()).unwrap();
    assert_eq!(code.as_ref(), "123456");
}

#[test]
fn two_fa_code_keeps_the_submitted_string() {
    // Leading zeroes and a plus sign are accepted by integer parsing, and the
    // string is stored as given, so such codes never equal a generated one.
    let padded = TwoFACode::parse("0100000".to_owned()).unwrap();
    assert_eq!(padded.as_ref(), "0100000");
    let plus = TwoFACode::parse("+100000".to_owned()).unwrap();
    assert_eq!(plus.as_ref(), "+100000");
    assert!(padded != TwoFACode::parse("100000".to_owned()).unwrap());
}

#[test]
fn two_fa_code_rejects_out_of_range_and_malformed_input() {
    assert!(TwoFACode::parse("99999".to_owned()).is_err());
    assert!(TwoFACode::parse("1000000".to_owned()).is_err());
    assert!(TwoFACode::parse("12a456".to_owned()).is_err());
    assert!(TwoFACode::parse("".to_owned()).is_err());
    assert!(TwoFACode::parse("+".to_owned()).is_err());
    assert!(TwoFACode::parse("-123456".to_owned()).is_err());
    assert!(TwoFACode::parse("99999999999999999999".to_owned()).is_err());
}

#[test]
fn two_fa_code_default_is_six_digits_in_range() {
    let code = TwoFACode::default();
    let s = code.as_ref();
    assert_eq!(s.len(), 6);
    let v: u32 = s.parse().unwrap();
    assert!((100_000..=999_999).contains(&v));
}

#[test]
fn login_attempt_id_parses_and_normalizes_uuids() {
    let id = LoginAttemptId::parse("67E55044-10B1-426F-9247-BB680E5FE0C8".to_owned()).unwrap();
    assert_eq!(id.as_ref(), "67e55044-10b1-426f-9247-bb680e5fe0c8");
    assert!(LoginAttemptId::parse("not-a-uuid".to_owned()).is_err());
    assert!(LoginAttemptId::parse("".to_owned()).is_err());
}

#[test]
fn login_attempt_id_default_round_trips() {
    let id = LoginAttemptId::default();
    let reparsed = LoginAttemptId::parse(id.as_ref().clone()).unwrap();
    assert!(id == reparsed);
}
