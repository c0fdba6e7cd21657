//! One-way hashing of passwords, and checking a presented password against a
//! stored hash. The hash is a self-describing PHC string (algorithm, cost
//! parameters, salt and output) produced by Argon2id with default costs.

use argon2::password_hash::rand_core::{OsRng, RngCore};
use argon2::password_hash::SaltString;
use argon2::{Argon2, PasswordHash, PasswordHasher, PasswordVerifier};
use vstd::prelude::*;
use vstd::utf8::encode_utf8;

use crate::error::DomainError;

verus! {

/// Number of random bytes drawn for each salt.
pub const SALT_LEN: usize = 16;

#[verifier::external_type_specification]
#[verifier::external_body]
pub struct ExPasswordHashError(argon2::password_hash::Error);

#[verifier::external_type_specification]
#[verifier::external_body]
pub struct ExRandError(argon2::password_hash::rand_core::Error);

/// Whether Argon2 accepts `password` against the PHC string `phc`: the string
/// parses, and re-deriving the output from `password` with the algorithm,
/// parameters and salt it names reproduces the output it holds.
pub uninterp spec fn argon2_accepts(password: Seq<char>, phc: Seq<char>) -> bool;

/// Longest password, in bytes of its UTF-8 encoding, that Argon2 takes.
pub const MAX_PASSWORD_BYTES: usize = 0xFFFF_FFFF;

/// How every stored hash begins: the algorithm and version fields of a PHC
/// string for Argon2id version 19.
pub open spec fn argon2id_phc_prefix() -> Seq<char> {
    "$argon2id$v=19$"@
}

/// `stored` is a PHC string of the form `$argon2id$v=19$...`.
pub open spec fn is_argon2id_phc(stored: Seq<char>) -> bool {
    stored.len() > argon2id_phc_prefix().len() && stored.subrange(0, argon2id_phc_prefix().len() as int)
        == argon2id_phc_prefix()
}

/// What `verify_password` answers for a password and a stored hash.
pub open spec fn password_matches(password: Seq<char>, stored: Seq<char>) -> bool {
    argon2_accepts(password, stored)
}

/// Relies on rand_core's `OsRng::try_fill_bytes`: it fills the whole buffer
/// from the operating system's generator, or reports that it could not.
#[verifier::external_body]
fn random_salt_bytes(len: usize) -> (r: Result<Vec<u8>, argon2::password_hash::rand_core::Error>)
    ensures
        r matches Ok(bytes) ==> bytes@.len() == len,
{
    let mut bytes = vec![0u8; len];
    OsRng.try_fill_bytes(&mut bytes)?;
    Ok(bytes)
}

/// Relies on argon2's `PasswordHasher::hash_password` (default Argon2id
/// parameters), with the salt given as raw bytes and B64-encoded by
/// `SaltString::encode_b64`. The PHC string it formats starts with
/// `$argon2id$v=19$` and names the parameters and salt used, so checking the
/// same password against it re-derives the same output. It fails only on a
/// salt outside 8..=48 bytes or a password over `MAX_PASSWORD_BYTES`.
#[verifier::external_body]
fn argon2_hash(password: &str, salt: &[u8]) -> (r: Result<String, argon2::password_hash::Error>)
    ensures
        8 <= salt@.len() <= 48 && encode_utf8(password@).len() <= MAX_PASSWORD_BYTES ==> r is Ok,
        r matches Ok(phc) ==> argon2_accepts(password@, phc@) && is_argon2id_phc(phc@),
{
    let salt = SaltString::encode_b64(salt)?;
    let hash = Argon2::default().hash_password(password.as_bytes(), &salt)?;
    Ok(hash.to_string())
}

/// Relies on argon2's `PasswordHash::new` and `PasswordVerifier::verify_password`:
/// a string that does not parse as a PHC string is refused like a wrong password.
#[verifier::external_body]
fn argon2_verify(password: &str, phc: &str) -> (r: bool)
    ensures
        r == argon2_accepts(password@, phc@),
{
    match PasswordHash::new(phc) {
        Ok(parsed) => Argon2::default().verify_password(password.as_bytes(), &parsed).is_ok(),
        Err(_) => false,
    }
}

/// The message of the one failure an ordinary password can meet.
pub open spec fn no_entropy_message() -> Seq<char> {
    "no entropy for a salt"@
}

/// Hashes `password` under a fresh random salt into a self-describing
/// `$argon2id$v=19$...` string. A stored hash produced here always verifies the
/// password it was made from; two calls give different strings because each
/// draws its own salt. For a password Argon2 takes, the only failure is an
/// unavailable entropy source; every failure is reported as unexpected.
pub fn hash_password(password: &str) -> (r: Result<String, DomainError>)
    ensures
        r matches Ok(stored) ==> password_matches(password@, stored@) && is_argon2id_phc(stored@),
        r matches Err(e) ==> e is Unexpected,
        encode_utf8(password@).len() <= MAX_PASSWORD_BYTES ==> (r matches Err(e) ==> e matches DomainError::Unexpected(
            m,
        ) && m@ == no_entropy_message()),
{
    let salt = match random_salt_bytes(SALT_LEN) {
        Ok(bytes) => bytes,
        Err(_) => {
            return Err(DomainError::Unexpected(String::from_str("no entropy for a salt")));
        },
    };
    match argon2_hash(password, salt.as_slice()) {
        Ok(stored) => Ok(stored),
        Err(_) => Err(DomainError::Unexpected(String::from_str("password hashing failed"))),
    }
}

/// Checks `password` against a stored hash. A wrong password and a malformed
/// hash both give `false`, so callers cannot tell the two apart.
pub fn verify_password(password: &str, stored: &str) -> (r: bool)
    ensures
        r == password_matches(password@, stored@),
{
    argon2_verify(password, stored)
}

} // verus!
