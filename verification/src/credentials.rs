//! Password hashing and verification.
//!
//! Passwords are stored as PHC strings produced by argon2 with a random
//! salt.  Hashing is nondeterministic - two hashes of one password differ -
//! so nothing is promised about the string itself beyond the one property
//! callers rely on: it verifies against the password it was made from.

use vstd::prelude::*;

use argon2::PasswordHasher;
use argon2::PasswordVerifier;

use crate::models::User;

verus! {

/// Whether argon2 verification of `password` against the PHC string `hash`
/// succeeds.  A function of its two arguments alone; its value is fixed by
/// the argon2 algorithm.
pub uninterp spec fn password_matches(password: Seq<char>, hash: Seq<char>) -> bool;

/// Why a credential operation failed.
#[derive(Debug, Clone, Copy, PartialEq, Eq, Structural)]
pub enum CredentialError {
    Hashing,
    Verification,
}

/// Relies on argon2::Argon2::hash_password with a generated random salt: a
/// returned PHC string verifies against the password it encodes.
#[verifier::external_body]
pub fn hash_password(password: &str) -> (r: Result<String, CredentialError>)
    ensures
        r matches Ok(h) ==> password_matches(password@, h@),
{
    match argon2::Argon2::default().hash_password(password.as_bytes()) {
        Ok(h) => Ok(h.to_string()),
        Err(_) => Err(CredentialError::Hashing),
    }
}

/// Relies on argon2::Argon2::verify_password, deterministic in the password
/// and the hash: it succeeds exactly when the PHC string parses and matches
/// this password.
#[verifier::external_body]
pub fn verify_password(password: &str, hash: &str) -> (r: Result<(), CredentialError>)
    ensures
        r is Ok <==> password_matches(password@, hash@),
{
    match argon2::Argon2::default().verify_password(password.as_bytes(), hash) {
        Ok(()) => Ok(()),
        Err(_) => Err(CredentialError::Verification),
    }
}

/// The login decision for a fetched account: accept exactly when the
/// submitted password matches the account's stored hash.
pub fn verify_user_password(user: &User, password: &str) -> (r: Result<(), CredentialError>)
    ensures
        r is Ok <==> password_matches(password@, user.password_hash@),
{
    verify_password(password, user.password_hash.as_str())
}

} // verus!
