use vstd::prelude::*;

use argon2::PasswordHasher;
use argon2::PasswordVerifier;

use crate::domain::data_stores::UserStoreError;
use crate::domain::password::Password;

verus! {

/// Whether argon2's constant-time verifier accepts `password` against the
/// PHC-encoded `hash`: a function of the two strings alone (the parameters
/// and the salt are read from the hash string).
pub uninterp spec fn argon2_verifies(hash: Seq<char>, password: Seq<char>) -> bool;

/// Relies on argon2's `hash_password` with a salt drawn fresh from the
/// thread's generator: of the random outcome only this holds — a hash that
/// comes back verifies against the password it was computed from.
#[verifier::external_body]
fn argon2_hash(password: &String) -> (r: Option<String>)
    ensures
        (match r {
            Some(h) => argon2_verifies(h@, password@),
            None => true,
        }),
{
    let salt = argon2::password_hash::SaltString::generate(&mut rand::thread_rng());
    let params = match argon2::Params::new(15000, 2, 1, None) {
        Ok(p) => p,
        Err(_) => return None,
    };
    let hasher = argon2::Argon2::new(argon2::Algorithm::Argon2id, argon2::Version::V0x13, params);
    match hasher.hash_password(password.as_bytes(), &salt) {
        Ok(h) => Some(h.to_string()),
        Err(_) => None,
    }
}

/// Relies on argon2's `verify_password`: it recomputes the hash with the
/// algorithm, version, parameters and salt taken from the PHC string and
/// compares in constant time; the verdict is a function of the two strings.
#[verifier::external_body]
fn argon2_verify(hash: &String, candidate: &String) -> (r: bool)
    ensures
        r == argon2_verifies(hash@, candidate@),
{
    let parsed = match argon2::PasswordHash::new(hash.as_str()) {
        Ok(p) => p,
        Err(_) => return false,
    };
    argon2::Argon2::default().verify_password(candidate.as_bytes(), &parsed).is_ok()
}

/// Hashes a password with the deployment's fixed memory-hard parameters.
/// The hash that comes back verifies against the password; a failure of the
/// hashing backend surfaces as the store's unexpected error.
pub fn compute_password_hash(password: &Password) -> (r: Result<String, UserStoreError>)
    ensures
        r matches Ok(h) ==> argon2_verifies(h@, password@),
        r is Err ==> r matches Err(UserStoreError::UnexpectedError),
{
    match argon2_hash(password.as_ref()) {
        Some(h) => Ok(h),
        None => Err(UserStoreError::UnexpectedError),
    }
}

/// Verifies a candidate password against a stored hash: success exactly when
/// the constant-time verifier accepts it, the invalid-credentials error
/// otherwise.
pub fn verify_password_hash(expected_password_hash: &String, password_candidate: &Password) -> (r:
    Result<(), UserStoreError>)
    ensures
        r is Ok <==> argon2_verifies(expected_password_hash@, password_candidate@),
        r is Err ==> r matches Err(UserStoreError::InvalidCredentials),
{
    if argon2_verify(expected_password_hash, password_candidate.as_ref()) {
        Ok(())
    } else {
        Err(UserStoreError::InvalidCredentials)
    }
}

} // verus!
