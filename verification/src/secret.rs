//! Generation, hashing and verification of bearer secrets.
//!
//! A plain secret is a random 25-character alphanumeric string shown to the
//! client exactly once; only its salted, memory-hard hash is ever stored. The
//! hash carries its own salt and parameters, so verification is a
//! deterministic function of the hash string and the candidate secret alone —
//! that function is named [`hash_matches`] and every contract about stored
//! secrets speaks through it.

use crate::errors::{DataDomainError, ServerError};
use argon2::PasswordHasher;
use rand::Rng;
use vstd::prelude::*;

verus! {

/// Number of characters of a plain bearer secret.
pub const TOKEN_LENGTH: usize = 25;

/// Whether `candidate` is the secret that the salted hash `expected` was
/// computed from. This is the verdict of the hashing primitive: it depends on
/// the two strings alone, since the salt and the work parameters travel
/// inside `expected`. A malformed `expected` matches nothing.
pub uninterp spec fn hash_matches(expected: Seq<char>, candidate: Seq<char>) -> bool;

/// The characters a generated secret is drawn from.
pub open spec fn is_token_char(c: char) -> bool {
    ('a' <= c && c <= 'z') || ('A' <= c && c <= 'Z') || ('0' <= c && c <= '9')
}

/// Generate a token of [`TOKEN_LENGTH`] alphanumeric characters.
///
/// Relies on rand's `Alphanumeric` distribution sampled from `thread_rng`,
/// a CSPRNG: each character is drawn uniformly from a-z, A-Z, 0-9. The
/// result is random, so nothing beyond its length and character set holds.
#[verifier::external_body]
pub fn generate_token() -> (r: String)
    ensures
        r@.len() == TOKEN_LENGTH,
        forall|i: int| 0 <= i < r@.len() ==> is_token_char(#[trigger] r@[i]),
{
    let mut rng = rand::thread_rng();
    let mut token = String::new();
    let mut count: usize = 0;
    while count < TOKEN_LENGTH {
        token.push(char::from(rng.sample(rand::distributions::Alphanumeric)));
        count += 1;
    }
    token
}

/// Relies on argon2's `hash_password` (Argon2id, version 0x13, memory cost
/// 15000 KiB, 2 iterations, 1 lane) over a fresh random salt: on success the
/// returned PHC string verifies against `plain`, since verification
/// recomputes the hash from the salt and parameters stored in the string.
/// The salt is random, so two calls on the same input may differ.
#[verifier::external_body]
fn argon2_hash(plain: &str) -> (r: Option<String>)
    ensures
        r matches Some(h) ==> hash_matches(h@, plain@),
{
    let salt = argon2::password_hash::SaltString::generate(&mut rand::thread_rng());
    let params = match argon2::Params::new(15000, 2, 1, None) {
        Ok(p) => p,
        Err(_) => return None,
    };
    let hasher = argon2::Argon2::new(argon2::Algorithm::Argon2id, argon2::Version::V0x13, params);
    match hasher.hash_password(plain.as_bytes(), &salt) {
        Ok(h) => Some(h.to_string()),
        Err(_) => None,
    }
}

/// Relies on argon2's `PasswordHash::new` and `Argon2::verify_password`:
/// whether `candidate` is the secret that the PHC string `expected` was
/// derived from. The verdict is recomputed deterministically from the salt
/// and parameters carried inside `expected`; an `expected` that is not a
/// well-formed PHC string counts as a mismatch, indistinguishably.
#[verifier::external_body]
fn argon2_verify(expected: &str, candidate: &str) -> (r: bool)
    ensures
        r == hash_matches(expected@, candidate@),
{
    match argon2::PasswordHash::new(expected) {
        Ok(parsed) => {
            argon2::PasswordVerifier::verify_password(
                &argon2::Argon2::default(),
                candidate.as_bytes(),
                &parsed,
            ).is_ok()
        },
        Err(_) => false,
    }
}

/// Hash a plain token with a fresh random salt.
///
/// On success the returned hash string matches exactly the token it was
/// computed from; hashing can fail only inside the hashing primitive, which
/// is reported as an infrastructure error.
pub fn generate_new_token_hash(plain_token: &str) -> (r: Result<String, ServerError>)
    ensures
        r matches Ok(h) ==> hash_matches(h@, plain_token@),
        r matches Err(e) ==> e == ServerError::DbError,
{
    match argon2_hash(plain_token) {
        Some(h) => Ok(h),
        None => Err(ServerError::DbError),
    }
}

/// Check a presented token against a stored hash.
///
/// Succeeds exactly when the token matches the hash. A mismatching token and
/// a malformed stored hash yield the same error, so callers cannot tell the
/// two apart.
pub fn verify_token(expected_token: &str, given_token: &str) -> (r: Result<(), DataDomainError>)
    ensures
        r is Ok <==> hash_matches(expected_token@, given_token@),
        r matches Err(e) ==> e == DataDomainError::InvalidAccessCredentials,
{
    if argon2_verify(expected_token, given_token) {
        Ok(())
    } else {
        Err(DataDomainError::InvalidAccessCredentials)
    }
}

} // verus!
