use vstd::prelude::*;

verus! {

/// The outcomes an operation can surface to the boundary layer.
/// Internal failure causes are never included in a response body.
#[derive(Debug, PartialEq, Eq, Structural)]
pub enum AuthAPIError {
    UserAlreadyExists,
    InvalidCredentials,
    UnexpectedError,
    IncorrectCredentials,
    MissingToken,
    InvalidToken,
}

impl AuthAPIError {
    /// The HTTP status code and human-readable message for each error kind.
    pub fn response_parts(&self) -> (r: (u16, String))
        ensures
            *self is UserAlreadyExists ==> r.0 == 409 && r.1@ == "User already exists"@,
            *self is InvalidCredentials ==> r.0 == 400 && r.1@ == "Invalid credentials"@,
            *self is UnexpectedError ==> r.0 == 500 && r.1@ == "Unexpected error"@,
            *self is IncorrectCredentials ==> r.0 == 401 && r.1@ == "Incorrect credentials"@,
            *self is MissingToken ==> r.0 == 400 && r.1@ == "Missing token"@,
            *self is InvalidToken ==> r.0 == 401 && r.1@ == "Invalid auth token"@,
    {
        match self {
            AuthAPIError::UserAlreadyExists => (409, "User already exists".to_owned()),
            AuthAPIError::InvalidCredentials => (400, "Invalid credentials".to_owned()),
            AuthAPIError::UnexpectedError => (500, "Unexpected error".to_owned()),
            AuthAPIError::IncorrectCredentials => (401, "Incorrect credentials".to_owned()),
            AuthAPIError::MissingToken => (400, "Missing token".to_owned()),
            AuthAPIError::InvalidToken => (401, "Invalid auth token".to_owned()),
        }
    }
}

} // verus!
