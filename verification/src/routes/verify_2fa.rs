use vstd::prelude::*;

use crate::domain::data_stores::{
    two_fa_code_valid, uuid_canon, LoginAttemptId, TwoFACode, TwoFACodeStore,
};
use crate::domain::email::{email_valid, Email};
use crate::domain::error::AuthAPIError;
use crate::utils::auth::{generate_auth_cookie, session_cookie_for, AuthCookie};

verus! {

/// The verify-2fa request body: `{email, loginAttemptId, 2FACode}`.
#[derive(Debug)]
pub struct Verify2FARequest {
    pub email: String,
    pub login_attempt_id: String,
    pub two_fa_code: String,
}

/// The outcome of two-factor verification over the model state.
pub ghost enum Verify2FAOutcome {
    Invalid,
    Incorrect,
    Verified,
}

/// Verification succeeds exactly when both the attempt id (after UUID
/// normalization) and the code (as submitted) equal the stored pending pair;
/// a missing challenge and a mismatched pair are indistinguishable outcomes.
pub open spec fn spec_verify_2fa(
    codes: Map<Seq<char>, (Seq<char>, Seq<char>)>,
    email: Seq<char>,
    id_raw: Seq<char>,
    code_raw: Seq<char>,
) -> Verify2FAOutcome {
    if !email_valid(email) || uuid_canon(id_raw) is None || !two_fa_code_valid(code_raw) {
        Verify2FAOutcome::Invalid
    } else if codes.dom().contains(email) && codes[email] == (uuid_canon(id_raw).unwrap(), code_raw) {
        Verify2FAOutcome::Verified
    } else {
        Verify2FAOutcome::Incorrect
    }
}

/// The reply granted a verified second factor: a session cookie for the
/// email beside the bare success body.
pub open spec fn verified_reply(
    r: (Option<AuthCookie>, Result<(), AuthAPIError>),
    secret: Seq<u8>,
    email: Seq<char>,
) -> bool {
    match r {
        (Option::Some(c), Ok(())) => session_cookie_for(c, secret, email),
        _ => false,
    }
}

/// Verify the second factor. On the exact match of both fields the consumed
/// challenge is removed and a session cookie is issued; the only failure then
/// left is a clock whose expiry timestamp cannot be represented.
pub fn verify_2fa<T: TwoFACodeStore>(
    two_fa_code_store: &mut T,
    request: Verify2FARequest,
    secret: &[u8],
) -> (r: (Option<AuthCookie>, Result<(), AuthAPIError>))
    ensures
        ({
            let out = spec_verify_2fa(
                old(two_fa_code_store).codes(),
                request.email@,
                request.login_attempt_id@,
                request.two_fa_code@,
            );
            let codes0 = old(two_fa_code_store).codes();
            let codes1 = final(two_fa_code_store).codes();
            &&& (out is Invalid <==> r.1 matches Err(AuthAPIError::InvalidCredentials))
            &&& (out is Incorrect <==> r.1 matches Err(AuthAPIError::IncorrectCredentials))
            &&& (r.1 is Err ==> r.0 is None)
            &&& (out is Invalid || out is Incorrect ==> codes1 == codes0)
            &&& (out is Verified ==> ((verified_reply(r, secret@, request.email@) && codes1
                == codes0.remove(request.email@)) || (r.1 matches Err(
                AuthAPIError::UnexpectedError,
            ) && r.0 is None && codes1 == codes0)))
        }),
{
    let email = match Email::parse(request.email) {
        Ok(e) => e,
        Err(_) => {
            return (None, Err(AuthAPIError::InvalidCredentials));
        },
    };
    let login_attempt_id = match LoginAttemptId::parse(request.login_attempt_id) {
        Ok(id) => id,
        Err(_) => {
            return (None, Err(AuthAPIError::InvalidCredentials));
        },
    };
    let two_fa_code = match TwoFACode::parse(request.two_fa_code) {
        Ok(c) => c,
        Err(_) => {
            return (None, Err(AuthAPIError::InvalidCredentials));
        },
    };
    let code_tuple = match two_fa_code_store.get_code(&email) {
        Ok(x) => x,
        Err(_) => {
            return (None, Err(AuthAPIError::IncorrectCredentials));
        },
    };
    if code_tuple.0 != login_attempt_id || code_tuple.1 != two_fa_code {
        return (None, Err(AuthAPIError::IncorrectCredentials));
    }
    let cookie = match generate_auth_cookie(&email, secret) {
        Ok(c) => c,
        Err(_) => {
            return (None, Err(AuthAPIError::UnexpectedError));
        },
    };
    match two_fa_code_store.remove_code(&email) {
        Ok(()) => {},
        Err(_) => {},
    }
    (Some(cookie), Ok(()))
}

} // verus!
