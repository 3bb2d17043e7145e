use vstd::prelude::*;

use crate::domain::data_stores::BannedTokenStore;
use crate::domain::error::AuthAPIError;
use crate::utils::auth::{now_timestamp, spec_validate_token, validate_token_at, TokenVerdict};

verus! {

/// The token a cookie jar hands in, if any, as the model sees it.
pub open spec fn token_view(cookie_token: Option<&String>) -> Option<Seq<char>> {
    match cookie_token {
        Option::Some(t) => Option::Some(t@),
        Option::None => Option::None,
    }
}

/// The outcome of logout over the model state.
pub ghost enum LogoutOutcome {
    MissingToken,
    InvalidToken,
    LoggedOut,
}

pub open spec fn spec_logout(
    banned: Set<Seq<char>>,
    secret: Seq<u8>,
    token: Option<Seq<char>>,
    now: int,
) -> LogoutOutcome {
    match token {
        Option::None => LogoutOutcome::MissingToken,
        Option::Some(t) => match spec_validate_token(banned, secret, t, now) {
            TokenVerdict::Valid { sub, exp } => LogoutOutcome::LoggedOut,
            _ => LogoutOutcome::InvalidToken,
        },
    }
}

pub open spec fn spec_logout_tokens(
    banned: Set<Seq<char>>,
    secret: Seq<u8>,
    token: Option<Seq<char>>,
    now: int,
) -> Set<Seq<char>> {
    if spec_logout(banned, secret, token, now) is LoggedOut {
        banned.insert(token.unwrap())
    } else {
        banned
    }
}

/// Logout at clock value `now`. The token must be present — a missing token
/// is its own, distinguishable error. A token that still verifies is revoked;
/// a second logout with it then fails at the revocation check.
pub fn logout_at<B: BannedTokenStore>(
    banned_token_store: &mut B,
    cookie_token: Option<&String>,
    secret: &[u8],
    now: i64,
) -> (r: Result<(), AuthAPIError>)
    ensures
        final(banned_token_store).tokens() == spec_logout_tokens(
            old(banned_token_store).tokens(),
            secret@,
            token_view(cookie_token),
            now as int,
        ),
        (match r {
            Ok(()) => spec_logout(
                old(banned_token_store).tokens(),
                secret@,
                token_view(cookie_token),
                now as int,
            ) is LoggedOut,
            Err(AuthAPIError::MissingToken) => cookie_token is None,
            Err(AuthAPIError::InvalidToken) => spec_logout(
                old(banned_token_store).tokens(),
                secret@,
                token_view(cookie_token),
                now as int,
            ) is InvalidToken,
            Err(_) => false,
        }),
{
    let token = match cookie_token {
        Some(t) => t,
        None => {
            return Err(AuthAPIError::MissingToken);
        },
    };
    match validate_token_at(token.as_str(), banned_token_store, secret, now) {
        Ok(_claims) => {},
        Err(_) => {
            return Err(AuthAPIError::InvalidToken);
        },
    }
    match banned_token_store.add_token(token.clone()) {
        Ok(()) => Ok(()),
        Err(_) => Ok(()),
    }
}

/// Logout, reading the clock. A missing token is refused without touching
/// the store; a successful logout leaves the token revoked.
pub fn logout<B: BannedTokenStore>(
    banned_token_store: &mut B,
    cookie_token: Option<&String>,
    secret: &[u8],
) -> (r: Result<(), AuthAPIError>)
    ensures
        cookie_token is None <==> r matches Err(AuthAPIError::MissingToken),
        cookie_token is None ==> final(banned_token_store).tokens() == old(
            banned_token_store,
        ).tokens(),
        (match r {
            Ok(()) => cookie_token matches Some(t) && final(banned_token_store).tokens() == old(
                banned_token_store,
            ).tokens().insert(t@) && !old(banned_token_store).tokens().contains(t@),
            Err(AuthAPIError::MissingToken) => true,
            Err(AuthAPIError::InvalidToken) => final(banned_token_store).tokens() == old(
                banned_token_store,
            ).tokens(),
            Err(_) => false,
        }),
{
    let now = now_timestamp();
    logout_at(banned_token_store, cookie_token, secret, now)
}

/// Logout with no token present is refused as a missing credential, and the
/// revocation set is untouched.
pub proof fn lemma_logout_missing_token(banned: Set<Seq<char>>, secret: Seq<u8>, now: int)
    ensures
        spec_logout(banned, secret, Option::None, now) is MissingToken,
        spec_logout_tokens(banned, secret, Option::None, now) == banned,
{
}

/// Logout twice in a row with one token: the first call revokes it, so the
/// second finds it revoked and is refused.
pub proof fn lemma_logout_twice(
    banned: Set<Seq<char>>,
    secret: Seq<u8>,
    token: Seq<char>,
    now1: int,
    now2: int,
)
    requires
        spec_logout(banned, secret, Option::Some(token), now1) is LoggedOut,
    ensures
        spec_logout(
            spec_logout_tokens(banned, secret, Option::Some(token), now1),
            secret,
            Option::Some(token),
            now2,
        ) is InvalidToken,
{
}

} // verus!
