//! Credential hashing and verification.
//!
//! A plaintext credential is hashed with a per-call random salt, a fixed
//! per-deployment server secret and the algorithm's default cost parameters
//! into a self-describing encoded hash; verification recomputes from the
//! parameters embedded in the hash and the same server secret. A mismatch is
//! a normal `false`, never an error, so callers can tell "wrong secret" from
//! "system error".

use vstd::prelude::*;

use crate::errors::TodoApiError;

verus! {

use vstd::string::StringSliceAdditionalSpecFns;

/// What verifying `password` with server secret `secret` against the encoded
/// hash `encoded` yields: `Some(b)` where `b` says whether they match, or
/// `None` if `encoded` is not a well-formed encoded hash. A function of the
/// three inputs alone; what `argon2::verify_encoded_ext` computes (with empty
/// associated data).
pub uninterp spec fn argon2_verify_outcome(
    encoded: Seq<char>,
    password: Seq<u8>,
    secret: Seq<u8>,
) -> Option<bool>;

/// Relies on `argon2::hash_encoded` with the default configuration and the
/// given secret: with a salt of 8 to 2^32 - 1 bytes and password and secret
/// no longer than 2^32 - 1 bytes it returns an encoded hash, and
/// `argon2::verify_encoded_ext` on that hash with the same password and
/// secret returns `Ok(true)`.
#[verifier::external_body]
fn argon2_hash_encoded(password: &[u8], salt: &[u8], secret: &[u8]) -> (r: Result<String, ()>)
    requires
        8 <= salt@.len() <= u32::MAX,
        password@.len() <= u32::MAX,
        secret@.len() <= u32::MAX,
    ensures
        r matches Ok(h) ==> argon2_verify_outcome(h@, password@, secret@) == Some(true),
        r is Ok,
{
    let config = argon2::Config { secret, ..argon2::Config::default() };
    argon2::hash_encoded(password, salt, &config).map_err(|_| ())
}

/// Relies on `argon2::verify_encoded_ext` (with empty associated data): the
/// outcome is a function of the hash, the password and the secret alone; it
/// errors exactly when the encoded hash cannot be decoded or describes an
/// invalid configuration.
#[verifier::external_body]
fn argon2_verify_encoded(encoded: &str, password: &[u8], secret: &[u8]) -> (r: Result<bool, ()>)
    ensures
        r matches Ok(b) ==> argon2_verify_outcome(encoded@, password@, secret@) == Some(b),
        r is Err ==> argon2_verify_outcome(encoded@, password@, secret@) is None,
{
    argon2::verify_encoded_ext(encoded, password, secret, &[]).map_err(|_| ())
}

/// Relies on `uuid::Uuid::new_v4` for 16 random bytes to use as a per-call
/// salt.
#[verifier::external_body]
fn random_salt() -> (r: Vec<u8>)
    ensures
        r@.len() == 16,
{
    uuid::Uuid::new_v4().as_bytes().to_vec()
}

/// Hash a plaintext credential with a fresh random salt and the given server
/// secret into a self-describing encoded hash. Verifying the result with the
/// same credential and secret succeeds.
pub fn hash_password(password: &str, server_secret: &[u8]) -> (r: Result<String, TodoApiError>)
    requires
        password.spec_bytes().len() <= u32::MAX,
        server_secret@.len() <= u32::MAX,
    ensures
        r matches Ok(h) ==> argon2_verify_outcome(h@, password.spec_bytes(), server_secret@)
            == Some(true),
        r is Ok,
{
    let salt = random_salt();
    match argon2_hash_encoded(password.as_bytes(), salt.as_slice(), server_secret) {
        Ok(h) => Ok(h),
        Err(_) => Err(TodoApiError::InternalServerError),
    }
}

/// Verify a plaintext credential against a stored encoded hash using the
/// parameters embedded in the hash and the given server secret. Returns
/// whether they match; a mismatch is `Ok(false)`, and only a malformed stored
/// hash is an error.
pub fn verify_hash(hash: &str, password: &str, server_secret: &[u8]) -> (r: Result<
    bool,
    TodoApiError,
>)
    ensures
        r matches Ok(b) ==> argon2_verify_outcome(hash@, password.spec_bytes(), server_secret@)
            == Some(b),
        r matches Err(e) ==> argon2_verify_outcome(hash@, password.spec_bytes(), server_secret@)
            is None && e == TodoApiError::InternalServerError,
{
    match argon2_verify_encoded(hash, password.as_bytes(), server_secret) {
        Ok(b) => Ok(b),
        Err(_) => Err(TodoApiError::InternalServerError),
    }
}

} // verus!
