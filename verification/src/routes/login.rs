use vstd::prelude::*;

use crate::domain::data_stores::{
    two_fa_code_valid, uuid_canon, LoginAttemptId, TwoFACode, TwoFACodeStore, UserStore,
};
use crate::domain::email::{email_valid, Email};
use crate::domain::email_client::EmailClient;
use crate::domain::error::AuthAPIError;
use crate::domain::password::{password_valid, Password};
use crate::domain::user::UserV;
use crate::utils::auth::{generate_auth_cookie, session_cookie_for, AuthCookie};

verus! {

/// The login request body: `{email, password}`.
#[derive(Debug, PartialEq)]
pub struct LoginRequest {
    pub email: String,
    pub password: String,
}

/// The 2FA challenge reply: it carries the attempt id, never the code.
#[derive(Debug, PartialEq)]
pub struct TwoFactorAuthResponse {
    pub message: String,
    pub login_attempt_id: String,
}

/// The two success replies of login.
#[derive(Debug, PartialEq)]
pub enum LoginResponse {
    RegularAuth,
    TwoFactorAuth(TwoFactorAuthResponse),
}

impl LoginResponse {
    /// 200 for a plain login, 206 while a second factor is still owed.
    pub fn status_code(&self) -> (r: u16)
        ensures
            *self is RegularAuth ==> r == 200,
            *self is TwoFactorAuth ==> r == 206,
    {
        match self {
            LoginResponse::RegularAuth => 200,
            LoginResponse::TwoFactorAuth(_) => 206,
        }
    }
}

/// The outcome of login over the model state.
pub ghost enum LoginOutcome {
    Invalid,
    Incorrect,
    LoggedIn,
    ChallengeIssued,
}

/// A malformed email or password is refused outright; a missing user and a
/// wrong password collapse into one outcome; a correct login branches on
/// whether the user owes a second factor.
pub open spec fn spec_login(
    users: Map<Seq<char>, UserV>,
    email: Seq<char>,
    password: Seq<char>,
) -> LoginOutcome {
    if !email_valid(email) || !password_valid(password) {
        LoginOutcome::Invalid
    } else if !users.dom().contains(email) || users[email].password != password {
        LoginOutcome::Incorrect
    } else if users[email].requires_2fa {
        LoginOutcome::ChallengeIssued
    } else {
        LoginOutcome::LoggedIn
    }
}

/// The reply granted a plain login: a session cookie for the email beside
/// the bare success body.
pub open spec fn regular_auth_reply(
    r: (Option<AuthCookie>, Result<LoginResponse, AuthAPIError>),
    secret: Seq<u8>,
    email: Seq<char>,
) -> bool {
    match r {
        (Option::Some(c), Ok(LoginResponse::RegularAuth)) => session_cookie_for(c, secret, email),
        _ => false,
    }
}

/// The reply when an operation failed mid-way: no cookie, the unexpected
/// error.
pub open spec fn unexpected_reply<T>(r: (Option<AuthCookie>, Result<T, AuthAPIError>)) -> bool {
    match r.1 {
        Err(AuthAPIError::UnexpectedError) => r.0 is None,
        _ => false,
    }
}

/// After a challenge is issued for `email`: exactly its pending pair was
/// (over)written — a syntactically fresh attempt id and a six-digit code.
pub open spec fn challenge_stored(
    codes0: Map<Seq<char>, (Seq<char>, Seq<char>)>,
    codes1: Map<Seq<char>, (Seq<char>, Seq<char>)>,
    email: Seq<char>,
) -> bool {
    &&& codes1.dom().contains(email)
    &&& codes1 == codes0.insert(email, codes1[email])
    &&& uuid_canon(codes1[email].0) == Some(codes1[email].0)
    &&& two_fa_code_valid(codes1[email].1)
}

/// The challenge-issued reply: no cookie; the stored attempt id — never the
/// code — beside the fixed message.
pub open spec fn challenge_reply(
    r: (Option<AuthCookie>, Result<LoginResponse, AuthAPIError>),
    codes1: Map<Seq<char>, (Seq<char>, Seq<char>)>,
    email: Seq<char>,
) -> bool {
    match r {
        (Option::None, Ok(LoginResponse::TwoFactorAuth(t))) => codes1.dom().contains(email)
            && t.login_attempt_id@ == codes1[email].0 && t.message@ == "2FA required"@,
        _ => false,
    }
}

/// Issues a fresh challenge for the email: a new random attempt id and code,
/// stored under the email (overwriting any prior pending pair), the code sent
/// out of band, the attempt id returned to the caller. If delivery fails the
/// challenge stays stored and the caller sees an unexpected error.
fn handle_2fa<T: TwoFACodeStore, E: EmailClient>(
    email: &Email,
    two_fa_code_store: &mut T,
    email_client: &E,
) -> (r: (Option<AuthCookie>, Result<LoginResponse, AuthAPIError>))
    ensures
        r.0 is None,
        challenge_stored(old(two_fa_code_store).codes(), final(two_fa_code_store).codes(), email@),
        challenge_reply(r, final(two_fa_code_store).codes(), email@) || unexpected_reply(r),
{
    let login_attempt_id = LoginAttemptId::default();
    let two_fa_code = TwoFACode::default();
    let id_for_response = login_attempt_id.clone();
    let code_for_delivery = two_fa_code.clone();
    match two_fa_code_store.add_code(email.clone(), login_attempt_id, two_fa_code) {
        Ok(()) => {},
        Err(_) => {
            return (None, Err(AuthAPIError::UnexpectedError));
        },
    }
    match email_client.send_email(email, "2FA Code", code_for_delivery.as_ref().as_str()) {
        Ok(()) => {},
        Err(_) => {
            return (None, Err(AuthAPIError::UnexpectedError));
        },
    }
    let response = LoginResponse::TwoFactorAuth(
        TwoFactorAuthResponse {
            message: "2FA required".to_owned(),
            login_attempt_id: id_for_response.as_ref().clone(),
        },
    );
    (None, Ok(response))
}

/// Completes a plain login: issues the session cookie for the email.
fn handle_no_2fa(email: &Email, secret: &[u8]) -> (r: (
    Option<AuthCookie>,
    Result<LoginResponse, AuthAPIError>,
))
    ensures
        regular_auth_reply(r, secret@, email@) || unexpected_reply(r),
{
    match generate_auth_cookie(email, secret) {
        Ok(cookie) => (Some(cookie), Ok(LoginResponse::RegularAuth)),
        Err(_) => (None, Err(AuthAPIError::UnexpectedError)),
    }
}

/// Login. Parse failures are refused as invalid input; a wrong password and
/// an unknown email collapse into one "incorrect credentials" outcome. On
/// correct credentials: without a second factor, a session cookie whose
/// decoded subject is the email; with one, a stored pending challenge and the
/// attempt id — and never a cookie.
pub fn login<U: UserStore, T: TwoFACodeStore, E: EmailClient>(
    user_store: &U,
    two_fa_code_store: &mut T,
    email_client: &E,
    request: LoginRequest,
    secret: &[u8],
) -> (r: (Option<AuthCookie>, Result<LoginResponse, AuthAPIError>))
    ensures
        ({
            let out = spec_login(user_store.users(), request.email@, request.password@);
            let codes0 = old(two_fa_code_store).codes();
            let codes1 = final(two_fa_code_store).codes();
            &&& (out is Invalid <==> r.1 matches Err(AuthAPIError::InvalidCredentials))
            &&& (out is Incorrect <==> r.1 matches Err(AuthAPIError::IncorrectCredentials))
            &&& (out is Invalid || out is Incorrect ==> codes1 == codes0 && r.0 is None)
            &&& (out is LoggedIn ==> codes1 == codes0 && (regular_auth_reply(
                r,
                secret@,
                request.email@,
            ) || unexpected_reply(r)))
            &&& (out is ChallengeIssued ==> challenge_stored(codes0, codes1, request.email@) && (
            challenge_reply(r, codes1, request.email@) || unexpected_reply(r)))
        }),
{
    let password = match Password::parse(request.password) {
        Ok(p) => p,
        Err(_) => {
            return (None, Err(AuthAPIError::InvalidCredentials));
        },
    };
    let email = match Email::parse(request.email) {
        Ok(e) => e,
        Err(_) => {
            return (None, Err(AuthAPIError::InvalidCredentials));
        },
    };
    match user_store.validate_user(&email, &password) {
        Ok(()) => {},
        Err(_) => {
            return (None, Err(AuthAPIError::IncorrectCredentials));
        },
    }
    let user = match user_store.get_user(&email) {
        Ok(u) => u,
        Err(_) => {
            return (None, Err(AuthAPIError::IncorrectCredentials));
        },
    };
    if user.requires_2fa {
        handle_2fa(&user.email, two_fa_code_store, email_client)
    } else {
        handle_no_2fa(&user.email, secret)
    }
}

} // verus!
