use vstd::prelude::*;

use crate::domain::data_stores::BannedTokenStore;
use crate::domain::email::Email;
use crate::domain::error::AuthAPIError;

verus! {

/// Session lifetime: a token expires this many seconds after issuance.
pub const TOKEN_TTL_SECONDS: i64 = 600;

/// The name of the cookie that carries the session token.
pub fn jwt_cookie_name() -> (r: &'static str)
    ensures
        r@ == "jwt"@,
{
    "jwt"
}

/// The claims of a session token: the authenticated subject and a unix
/// timestamp after which the token is no longer valid. Immutable once issued.
#[derive(Debug)]
pub struct Claims {
    pub sub: String,
    pub exp: usize,
}

/// The compact signed token that `jsonwebtoken::encode` produces for the
/// claims `{sub, exp}` under an HS256 secret: a function of key and claims
/// alone.
pub uninterp spec fn jwt_of(secret: Seq<u8>, sub: Seq<char>, exp: int) -> Seq<char>;

/// What `jsonwebtoken::decode` yields for a token under an HS256 secret with
/// expiry validation turned off: `None` unless the signature verifies and the
/// payload carries `sub` and `exp`; a function of token and key alone.
pub uninterp spec fn jwt_claims_of(secret: Seq<u8>, token: Seq<char>) -> Option<(Seq<char>, int)>;

/// Relies on `jsonwebtoken::encode`: for an HMAC key and a JSON object of
/// claims the result is a function of key and claims alone and the call does
/// not fail (HMAC signing is infallible); decoding the result with the same
/// secret recovers exactly the claims that were encoded.
#[verifier::external_body]
fn create_token(claims: &Claims, secret: &[u8]) -> (r: String)
    ensures
        r@ == jwt_of(secret@, claims.sub@, claims.exp as int),
        jwt_claims_of(secret@, r@) == Some((claims.sub@, claims.exp as int)),
        r@.len() > 0,
{
    let mut payload = serde_json::Map::new();
    payload.insert("sub".to_string(), serde_json::Value::String(claims.sub.clone()));
    payload.insert("exp".to_string(), serde_json::Value::from(claims.exp as u64));
    let key = jsonwebtoken::EncodingKey::from_secret(secret);
    let value = serde_json::Value::Object(payload);
    jsonwebtoken::encode(&jsonwebtoken::Header::default(), &value, &key)
        .expect("HMAC signing of a JSON object does not fail")
}

/// Relies on `jsonwebtoken::decode`: with HS256 required, expiry validation
/// turned off and no required claims, the result depends on the token and the
/// secret alone, and is the claims exactly when the signature verifies and
/// the payload carries a string `sub` and an integer `exp`.
#[verifier::external_body]
fn decode_token(token: &str, secret: &[u8]) -> (r: Option<Claims>)
    ensures
        (match r {
            Some(c) => jwt_claims_of(secret@, token@) == Some((c.sub@, c.exp as int)),
            None => jwt_claims_of(secret@, token@) is None,
        }),
{
    let mut validation = jsonwebtoken::Validation::new(jsonwebtoken::Algorithm::HS256);
    validation.validate_exp = false;
    validation.required_spec_claims = std::collections::HashSet::new();
    let key = jsonwebtoken::DecodingKey::from_secret(secret);
    let data = jsonwebtoken::decode::<serde_json::Value>(token, &key, &validation).ok()?;
    let sub = data.claims.get("sub")?.as_str()?.to_string();
    let exp = data.claims.get("exp")?.as_u64()?;
    Some(Claims { sub, exp: exp as usize })
}

/// Relies on `chrono::Utc::now`: the wall clock, as unix seconds. Nothing is
/// assumed of its value.
#[verifier::external_body]
pub(crate) fn now_timestamp() -> (r: i64)
{
    chrono::Utc::now().timestamp()
}

/// The cookie attribute set a session token is wrapped in: HttpOnly,
/// SameSite=Lax, Path=/, no explicit Max-Age, so the cookie is bounded by the
/// token's own expiry.
#[derive(Debug)]
pub struct AuthCookie {
    pub name: String,
    pub value: String,
    pub path: String,
    pub http_only: bool,
    pub same_site_lax: bool,
}

/// Wraps a token in the fixed cookie attribute set.
pub fn create_auth_cookie(token: String) -> (c: AuthCookie)
    ensures
        c.name@ == "jwt"@,
        c.value@ == token@,
        c.path@ == "/"@,
        c.http_only,
        c.same_site_lax,
{
    AuthCookie {
        name: "jwt".to_owned(),
        value: token,
        path: "/".to_owned(),
        http_only: true,
        same_site_lax: true,
    }
}

/// When the clock reads `now`, the expiry `now + TOKEN_TTL_SECONDS` is
/// representable both as an `i64` and as the `usize` the claims carry.
pub open spec fn exp_timestamp_ok(now: int) -> bool {
    0 <= now + TOKEN_TTL_SECONDS <= usize::MAX && now + TOKEN_TTL_SECONDS <= i64::MAX
}

/// Builds the signed session token for `email` when the clock reads `now`:
/// claims `{sub: email, exp: now + TOKEN_TTL_SECONDS}`. Fails only when that
/// expiry does not fit a timestamp.
pub fn generate_auth_token_at(email: &Email, secret: &[u8], now: i64) -> (r: Result<
    String,
    AuthAPIError,
>)
    ensures
        r matches Ok(t) ==> exp_timestamp_ok(now as int) && t@ == jwt_of(
            secret@,
            email@,
            now + TOKEN_TTL_SECONDS,
        ) && jwt_claims_of(secret@, t@) == Some((email@, now + TOKEN_TTL_SECONDS as int))
            && t@.len() > 0,
        r is Err ==> !exp_timestamp_ok(now as int) && r matches Err(
            AuthAPIError::UnexpectedError,
        ),
{
    let exp_i = match now.checked_add(TOKEN_TTL_SECONDS) {
        Some(e) => e,
        None => {
            return Err(AuthAPIError::UnexpectedError);
        },
    };
    if exp_i < 0 {
        return Err(AuthAPIError::UnexpectedError);
    }
    let exp_u = exp_i as u64;
    if exp_u > usize::MAX as u64 {
        return Err(AuthAPIError::UnexpectedError);
    }
    let exp = exp_u as usize;
    let claims = Claims { sub: email.as_ref().clone(), exp };
    Ok(create_token(&claims, secret))
}

/// Builds the signed session token for `email`, reading the clock; what
/// holds of every clock value: a token that comes back decodes to `email`.
pub fn generate_auth_token(email: &Email, secret: &[u8]) -> (r: Result<String, AuthAPIError>)
    ensures
        r matches Ok(t) ==> (jwt_claims_of(secret@, t@) matches Some(p) && p.0 == email@)
            && t@.len() > 0,
        r is Err ==> r matches Err(AuthAPIError::UnexpectedError),
{
    let now = now_timestamp();
    generate_auth_token_at(email, secret, now)
}

/// Issues the session cookie for `email` when the clock reads `now`.
pub fn generate_auth_cookie_at(email: &Email, secret: &[u8], now: i64) -> (r: Result<
    AuthCookie,
    AuthAPIError,
>)
    ensures
        r matches Ok(c) ==> exp_timestamp_ok(now as int) && c.name@ == "jwt"@
            && c.path@ == "/"@ && c.http_only && c.same_site_lax && c.value@.len() > 0
            && c.value@ == jwt_of(secret@, email@, now + TOKEN_TTL_SECONDS) && jwt_claims_of(
            secret@,
            c.value@,
        ) == Some((email@, now + TOKEN_TTL_SECONDS as int)),
        r is Err ==> !exp_timestamp_ok(now as int) && r matches Err(
            AuthAPIError::UnexpectedError,
        ),
{
    match generate_auth_token_at(email, secret, now) {
        Ok(token) => Ok(create_auth_cookie(token)),
        Err(e) => Err(e),
    }
}

/// Issues the session cookie for `email`, reading the clock.
pub fn generate_auth_cookie(email: &Email, secret: &[u8]) -> (r: Result<AuthCookie, AuthAPIError>)
    ensures
        r matches Ok(c) ==> c.name@ == "jwt"@ && c.path@ == "/"@ && c.http_only && c.same_site_lax
            && c.value@.len() > 0 && (jwt_claims_of(secret@, c.value@) matches Some(p) && p.0
            == email@),
        r is Err ==> r matches Err(AuthAPIError::UnexpectedError),
{
    let now = now_timestamp();
    generate_auth_cookie_at(email, secret, now)
}

/// What a correctly issued session cookie for `email` looks like: the fixed
/// attribute set, a non-empty value, and claims that decode under the secret
/// to the subject `email`.
pub open spec fn session_cookie_for(c: AuthCookie, secret: Seq<u8>, email: Seq<char>) -> bool {
    &&& c.name@ == "jwt"@
    &&& c.path@ == "/"@
    &&& c.value@.len() > 0
    &&& c.http_only
    &&& c.same_site_lax
    &&& (match jwt_claims_of(secret, c.value@) {
        Option::Some(p) => p.0 == email,
        Option::None => false,
    })
}

/// Why a token failed verification. The boundary layer collapses all of
/// these into one "invalid token" reply.
#[derive(Debug, PartialEq, Eq, Structural)]
pub enum TokenVerifyError {
    Revoked,
    Invalid,
    Expired,
}

/// The verdict of token verification over the model state: the revocation
/// set is consulted first, then signature and claims, then expiry.
pub ghost enum TokenVerdict {
    Revoked,
    Invalid,
    Expired,
    Valid { sub: Seq<char>, exp: int },
}

pub open spec fn spec_validate_token(
    banned: Set<Seq<char>>,
    secret: Seq<u8>,
    token: Seq<char>,
    now: int,
) -> TokenVerdict {
    if banned.contains(token) {
        TokenVerdict::Revoked
    } else {
        match jwt_claims_of(secret, token) {
            Option::None => TokenVerdict::Invalid,
            Option::Some((sub, exp)) => if exp < now {
                TokenVerdict::Expired
            } else {
                TokenVerdict::Valid { sub, exp }
            },
        }
    }
}

/// Verifies a session token against the clock value `now`, in order:
/// revocation first (a revoked token is rejected without decoding), then
/// signature and claims, then expiry.
pub fn validate_token_at<B: BannedTokenStore>(
    token: &str,
    banned_token_store: &B,
    secret: &[u8],
    now: i64,
) -> (r: Result<Claims, TokenVerifyError>)
    ensures
        (match r {
            Ok(c) => spec_validate_token(banned_token_store.tokens(), secret@, token@, now as int)
                == (TokenVerdict::Valid { sub: c.sub@, exp: c.exp as int }),
            Err(TokenVerifyError::Revoked) => spec_validate_token(
                banned_token_store.tokens(),
                secret@,
                token@,
                now as int,
            ) is Revoked,
            Err(TokenVerifyError::Invalid) => spec_validate_token(
                banned_token_store.tokens(),
                secret@,
                token@,
                now as int,
            ) is Invalid,
            Err(TokenVerifyError::Expired) => spec_validate_token(
                banned_token_store.tokens(),
                secret@,
                token@,
                now as int,
            ) is Expired,
        }),
        banned_token_store.tokens().contains(token@) <==> r matches Err(
            TokenVerifyError::Revoked,
        ),
        r matches Ok(c) ==> jwt_claims_of(secret@, token@) == Some((c.sub@, c.exp as int)) && now
            <= c.exp,
{
    let banned = match banned_token_store.contains_token(token) {
        Ok(b) => b,
        Err(_) => true,
    };
    if banned {
        return Err(TokenVerifyError::Revoked);
    }
    let claims = match decode_token(token, secret) {
        Some(c) => c,
        None => {
            return Err(TokenVerifyError::Invalid);
        },
    };
    let expired = if now <= 0 {
        false
    } else {
        (claims.exp as u64) < (now as u64)
    };
    if expired {
        Err(TokenVerifyError::Expired)
    } else {
        Ok(claims)
    }
}

/// Verifies a session token, reading the clock; the revocation check comes
/// first whatever the clock value.
pub fn validate_token<B: BannedTokenStore>(token: &str, banned_token_store: &B, secret: &[u8]) -> (r:
    Result<Claims, TokenVerifyError>)
    ensures
        banned_token_store.tokens().contains(token@) <==> r matches Err(
            TokenVerifyError::Revoked,
        ),
        r matches Ok(c) ==> jwt_claims_of(secret@, token@) == Some((c.sub@, c.exp as int)),
        r matches Err(TokenVerifyError::Invalid) ==> jwt_claims_of(secret@, token@) is None,
        r matches Err(TokenVerifyError::Expired) ==> jwt_claims_of(secret@, token@) is Some,
{
    let now = now_timestamp();
    validate_token_at(token, banned_token_store, secret, now)
}

/// A token that is not revoked, whose claims decode under the secret, and
/// whose expiry has not passed, verifies successfully: `issue` then `verify`
/// at once succeeds, and the verified subject is the one issued for.
pub proof fn lemma_verify_after_issue(
    banned: Set<Seq<char>>,
    secret: Seq<u8>,
    token: Seq<char>,
    sub: Seq<char>,
    exp: int,
    now: int,
)
    requires
        !banned.contains(token),
        jwt_claims_of(secret, token) == Some((sub, exp)),
        now <= exp,
    ensures
        spec_validate_token(banned, secret, token, now) == (TokenVerdict::Valid { sub, exp }),
{
}

/// Once a token is revoked, verification rejects it, whatever the clock and
/// whether or not its signature and expiry would still pass.
pub proof fn lemma_verify_after_revoke(
    banned: Set<Seq<char>>,
    secret: Seq<u8>,
    token: Seq<char>,
    now: int,
)
    ensures
        spec_validate_token(banned.insert(token), secret, token, now) is Revoked,
{
}

} // verus!
