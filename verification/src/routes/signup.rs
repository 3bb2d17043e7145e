use vstd::prelude::*;

use crate::domain::data_stores::UserStore;
use crate::domain::email::{email_valid, Email};
use crate::domain::error::AuthAPIError;
use crate::domain::password::{password_valid, Password};
use crate::domain::user::{User, UserV};

verus! {

/// The signup request body: `{email, password, requires2FA}`.
#[derive(Debug)]
pub struct SignupRequest {
    pub email: String,
    pub password: String,
    pub requires_2fa: bool,
}

/// The signup success payload.
#[derive(Debug, PartialEq)]
pub struct SignupResponse {
    pub message: String,
}

/// The outcome of signup over the model state.
pub ghost enum SignupOutcome {
    Invalid,
    Duplicate,
    Created,
}

pub open spec fn spec_signup(
    users: Map<Seq<char>, UserV>,
    email: Seq<char>,
    password: Seq<char>,
) -> SignupOutcome {
    if !email_valid(email) || !password_valid(password) {
        SignupOutcome::Invalid
    } else if users.dom().contains(email) {
        SignupOutcome::Duplicate
    } else {
        SignupOutcome::Created
    }
}

pub open spec fn spec_signup_users(
    users: Map<Seq<char>, UserV>,
    email: Seq<char>,
    password: Seq<char>,
    requires_2fa: bool,
) -> Map<Seq<char>, UserV> {
    if spec_signup(users, email, password) is Created {
        users.insert(email, UserV { email, password, requires_2fa })
    } else {
        users
    }
}

/// Signup: validate the email and password, refuse a duplicate email, else
/// create the record. A malformed email or password is a client error; which
/// of the two was malformed is not revealed.
pub fn signup<U: UserStore>(user_store: &mut U, request: SignupRequest) -> (r: Result<
    SignupResponse,
    AuthAPIError,
>)
    ensures
        final(user_store).users() == spec_signup_users(
            old(user_store).users(),
            request.email@,
            request.password@,
            request.requires_2fa,
        ),
        (match r {
            Ok(resp) => spec_signup(old(user_store).users(), request.email@, request.password@)
                is Created && resp.message@ == "User created successfully!"@,
            Err(AuthAPIError::InvalidCredentials) => spec_signup(
                old(user_store).users(),
                request.email@,
                request.password@,
            ) is Invalid,
            Err(AuthAPIError::UserAlreadyExists) => spec_signup(
                old(user_store).users(),
                request.email@,
                request.password@,
            ) is Duplicate,
            Err(_) => false,
        }),
{
    let email = match Email::parse(request.email) {
        Ok(e) => e,
        Err(_) => {
            return Err(AuthAPIError::InvalidCredentials);
        },
    };
    let password = match Password::parse(request.password) {
        Ok(p) => p,
        Err(_) => {
            return Err(AuthAPIError::InvalidCredentials);
        },
    };
    let user = User::new(email, password, request.requires_2fa);
    match user_store.get_user(&user.email) {
        Ok(_) => {
            return Err(AuthAPIError::UserAlreadyExists);
        },
        Err(_) => {},
    }
    match user_store.add_user(user) {
        Ok(()) => {},
        Err(_) => {
            return Err(AuthAPIError::UnexpectedError);
        },
    }
    Ok(SignupResponse { message: "User created successfully!".to_owned() })
}

/// Signing up a fresh valid (email, password) creates the account; an
/// immediate second signup with the same email is refused as a duplicate,
/// whatever valid credentials it carries.
pub proof fn lemma_signup_then_duplicate(
    users: Map<Seq<char>, UserV>,
    email: Seq<char>,
    password: Seq<char>,
    requires_2fa: bool,
    password2: Seq<char>,
)
    requires
        email_valid(email),
        password_valid(password),
        password_valid(password2),
        !users.dom().contains(email),
    ensures
        spec_signup(users, email, password) is Created,
        spec_signup(
            spec_signup_users(users, email, password, requires_2fa),
            email,
            password2,
        ) is Duplicate,
{
}

} // verus!
