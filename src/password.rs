use vstd::prelude::*;
use vstd::utf8::encode_utf8;

use crate::error::{AuthError, InternalCause};

verus! {

/// What bcrypt's check of `password` against the stored `hash` yields;
/// `None` where the hash cannot be parsed.
pub uninterp spec fn bcrypt_verdict(password: Seq<u8>, hash: Seq<char>) -> Option<bool>;

/// Relies on bcrypt::hash at bcrypt::DEFAULT_COST: the salt is drawn at random, and
/// a hash it returns checks out against the same password.
#[verifier::external_body]
fn bcrypt_hash(password: &[u8]) -> (r: Option<String>)
    ensures
        r matches Some(h) ==> bcrypt_verdict(password@, h@) == Some(true),
{
    bcrypt::hash(password, bcrypt::DEFAULT_COST).ok()
}

/// Relies on bcrypt::verify: recomputes the digest with the cost and salt carried by
/// `hash` and compares in constant time; fails where `hash` is malformed.
#[verifier::external_body]
fn bcrypt_verify(password: &[u8], hash: &str) -> (r: Option<bool>)
    ensures
        r == bcrypt_verdict(password@, hash@),
{
    bcrypt::verify(password, hash).ok()
}

/// The outcome of checking `plain` against a stored hash: a malformed hash is an
/// internal failure, never a credentials error.
pub open spec fn verify_outcome(plain: Seq<char>, hash: Seq<char>) -> Result<bool, AuthError> {
    match bcrypt_verdict(encode_utf8(plain), hash) {
        Some(b) => Ok(b),
        None => Err(AuthError::Internal(InternalCause::HashCheck)),
    }
}

/// Hashes a password with a fresh random salt.
/// Whatever hash comes back verifies against the same password.
pub fn hash_password(plain: &str) -> (r: Result<String, AuthError>)
    ensures
        r matches Ok(h) ==> verify_outcome(plain@, h@) == Ok::<bool, AuthError>(true),
        r matches Err(e) ==> e == AuthError::Internal(InternalCause::Hashing),
{
    match bcrypt_hash(plain.as_bytes()) {
        Some(h) => Ok(h),
        None => Err(AuthError::Internal(InternalCause::Hashing)),
    }
}

/// Checks a password against a stored hash.
pub fn verify_password(plain: &str, hash: &str) -> (r: Result<bool, AuthError>)
    ensures
        r == verify_outcome(plain@, hash@),
{
    match bcrypt_verify(plain.as_bytes(), hash) {
        Some(b) => Ok(b),
        None => Err(AuthError::Internal(InternalCause::HashCheck)),
    }
}

} // verus!
