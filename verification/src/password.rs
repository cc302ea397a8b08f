//! Password hashing and verification with bcrypt.

use crate::auth::Presentation;
use vstd::prelude::*;
use vstd::utf8::encode_utf8;

verus! {

/// The only way hashing can fail: the bcrypt library or its random source
/// broke. The password's content never causes it.
#[derive(Debug, Clone, Copy, PartialEq, Eq, Structural)]
pub enum HashingError {
    InternalFailure,
}

impl HashingError {
    /// What a client gets to see of this failure: the service failed, not
    /// the client's credential.
    pub fn presentation(&self) -> (shown: Presentation)
        ensures
            shown == Presentation::ServerFailure,
    {
        Presentation::ServerFailure
    }
}

/// `bcrypt::BcryptError`, carried from a call to where it is mapped.
#[verifier::external_type_specification]
#[verifier::external_body]
pub struct ExBcryptError(bcrypt::BcryptError);

/// Length of every bcrypt hash string: version, cost, salt and digest.
pub const HASH_LEN: usize = 60;

/// What `bcrypt::verify` returns for a password and a stored hash string:
/// `Some(b)` for its `Ok(b)`, `None` for any error (a stored string that is
/// no bcrypt hash, or one whose cost is out of range).
pub uninterp spec fn bcrypt_verdict(password: Seq<u8>, stored: Seq<char>) -> Option<bool>;

/// A plaintext matches a stored hash when bcrypt verifies it cleanly.
pub open spec fn password_matches(plaintext: Seq<char>, stored: Seq<char>) -> bool {
    bcrypt_verdict(encode_utf8(plaintext), stored) == Some(true)
}

/// Calls `bcrypt::verify`, which parses the stored string, hashes the
/// password again with the cost and salt found in it and compares the two
/// digests in constant time. The result is a function of the two arguments.
#[verifier::external_body]
fn bcrypt_verify(password: &[u8], stored: &str) -> (outcome: Result<bool, bcrypt::BcryptError>)
    ensures
        match outcome {
            Ok(b) => bcrypt_verdict(password@, stored@) == Some(b),
            Err(_) => bcrypt_verdict(password@, stored@) is None,
        },
{
    bcrypt::verify(password, stored)
}

/// Calls `bcrypt::hash` with the library's `DEFAULT_COST`. The salt is
/// random, so the hash itself is not determined; what holds of every hash it
/// returns is that it is 60 characters long and that `bcrypt::verify` accepts
/// the same password against it.
#[verifier::external_body]
fn bcrypt_hash(password: &[u8]) -> (outcome: Result<String, bcrypt::BcryptError>)
    ensures
        outcome matches Ok(hashed) ==> hashed@.len() == HASH_LEN && bcrypt_verdict(
            password@,
            hashed@,
        ) == Some(true),
{
    bcrypt::hash(password, bcrypt::DEFAULT_COST)
}

/// Reads a verification outcome: only a clean `true` lets a password
/// through; `false` and every error alike do not.
pub fn accepts(outcome: Result<bool, bcrypt::BcryptError>) -> (ok: bool)
    ensures
        ok == (outcome matches Ok(b) && b),
{
    match outcome {
        Ok(b) => b,
        Err(_) => false,
    }
}

/// Checks a plaintext password against a stored hash. A stored string that
/// is not a well-formed hash gives `false`, like a wrong password.
pub fn verify(plaintext: &str, stored: &str) -> (ok: bool)
    ensures
        ok == password_matches(plaintext@, stored@),
{
    accepts(bcrypt_verify(plaintext.as_bytes(), stored))
}

/// Reads a hashing outcome: the hash as it came where there is one, and
/// `InternalFailure` for every error of the bcrypt library.
pub fn hash_or_failure(outcome: Result<String, bcrypt::BcryptError>) -> (hashed: Result<
    String,
    HashingError,
>)
    ensures
        match outcome {
            Ok(h) => hashed == Ok::<String, HashingError>(h),
            Err(_) => hashed == Err::<String, HashingError>(HashingError::InternalFailure),
        },
{
    match outcome {
        Ok(h) => Ok(h),
        Err(_) => Err(HashingError::InternalFailure),
    }
}

/// Hashes a plaintext password with a fresh salt. Every hash it returns is
/// `HASH_LEN` characters long and matches the plaintext. Whether it returns
/// one rests with the bcrypt library's random source alone, never with the
/// plaintext; its only failure is `InternalFailure`.
pub fn hash(plaintext: &str) -> (hashed: Result<String, HashingError>)
    ensures
        match hashed {
            Ok(h) => h@.len() == HASH_LEN && password_matches(plaintext@, h@),
            Err(failure) => failure == HashingError::InternalFailure,
        },
{
    hash_or_failure(bcrypt_hash(plaintext.as_bytes()))
}

} // verus!
