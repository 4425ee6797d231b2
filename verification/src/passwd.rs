//! Password hashing with Argon2.

use vstd::prelude::*;
use crate::model::Error;
use argon2::{PasswordHasher, PasswordVerifier};

verus! {

/// Whether `argon2` accepts `password` against the PHC string `hash`: the
/// string parses (`PasswordHash::new`) and `Argon2::default().verify_password`
/// succeeds. A function of the two texts alone.
pub uninterp spec fn argon2_verifies(password: Seq<char>, hash: Seq<char>) -> bool;

/// Hashes a password with `Argon2::default().hash_password` (a fresh random
/// salt each time) and writes the hash as a PHC string.
///
/// Trusted: when hashing succeeds, the string is one that the same Argon2
/// configuration accepts for this password; the salt, and so the string
/// itself, is chance. When the crate reports an error nothing is returned.
#[verifier::external_body]
fn argon2_hash(password: &str) -> (r: Option<String>)
    ensures
        r matches Some(h) ==> argon2_verifies(password@, h@),
{
    argon2::Argon2::default().hash_password(password.as_bytes()).ok().map(|h| h.to_string())
}

/// Parses `hash` as a PHC string (`argon2::PasswordHash::new`) and checks
/// `password` against it (`Argon2::default().verify_password`).
///
/// Trusted: the answer is `argon2_verifies` of the two texts.
#[verifier::external_body]
fn argon2_check(password: &str, hash: &str) -> (r: bool)
    ensures
        r == argon2_verifies(password@, hash@),
{
    match argon2::PasswordHash::new(hash) {
        Ok(parsed) => argon2::Argon2::default().verify_password(password.as_bytes(), &parsed).is_ok(),
        Err(_) => false,
    }
}

/// Hash a password. The hash verifies against the password.
pub fn hash(p: &str) -> (r: Result<String, Error>)
    ensures
        match r {
            Ok(h) => argon2_verifies(p@, h@),
            Err(e) => e == Error::HashFailed,
        },
{
    match argon2_hash(p) {
        Some(h) => Ok(h),
        None => Err(Error::HashFailed),
    }
}

/// Check a password against a hash: `Ok(true)` when it matches, an error
/// otherwise.
pub fn verify(p: &str, h: &str) -> (r: Result<bool, Error>)
    ensures
        r == if argon2_verifies(p@, h@) {
            Ok::<bool, Error>(true)
        } else {
            Err::<bool, Error>(Error::BadPassword)
        },
{
    if argon2_check(p, h) {
        Ok(true)
    } else {
        Err(Error::BadPassword)
    }
}

} // verus!
