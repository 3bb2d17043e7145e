use vstd::prelude::*;

use crate::domain::data_stores::BannedTokenStore;
use crate::domain::error::AuthAPIError;
use crate::utils::auth::{jwt_claims_of, validate_token};

verus! {

/// The verify-token request body: `{token}`.
#[derive(Debug, PartialEq)]
pub struct VerifyTokenRequest {
    pub token: String,
}

/// Verify a bearer token. Every failure — revoked, bad signature, expired —
/// collapses into one "invalid token" reply.
pub fn verify_token<B: BannedTokenStore>(
    banned_token_store: &B,
    request: &VerifyTokenRequest,
    secret: &[u8],
) -> (r: Result<(), AuthAPIError>)
    ensures
        banned_token_store.tokens().contains(request.token@) ==> r matches Err(
            AuthAPIError::InvalidToken,
        ),
        r is Err ==> r matches Err(AuthAPIError::InvalidToken),
        r is Ok ==> !banned_token_store.tokens().contains(request.token@) && jwt_claims_of(
            secret@,
            request.token@,
        ) is Some,
        jwt_claims_of(secret@, request.token@) is None ==> r matches Err(
            AuthAPIError::InvalidToken,
        ),
{
    match validate_token(request.token.as_str(), banned_token_store, secret) {
        Ok(_) => Ok(()),
        Err(_) => Err(AuthAPIError::InvalidToken),
    }
}

} // verus!
