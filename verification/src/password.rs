//! Password hashing and verification with Argon2.
//!
//! Hashes are PHC strings: they name the algorithm and its parameters and
//! hold the salt next to the digest, so verification needs nothing but the
//! stored string and the candidate password.

use vstd::prelude::*;

verus! {

/// Why a password could not be hashed or did not verify.
#[derive(Clone, Copy, Debug, PartialEq, Eq, Structural)]
pub enum PasswordError {
    /// The password is not the one the hash was made from.
    Mismatch,
    /// The stored hash is not a usable Argon2 PHC string: a sign of corrupt
    /// data, not of a wrong password.
    CorruptHash,
    /// Argon2 refused to hash the password with the salt it was given.
    Hashing,
}

/// The error of `argon2` when hashing. It is passed through unread.
#[verifier::external_type_specification]
#[verifier::external_body]
pub struct ExPasswordHashError(argon2::password_hash::Error);

/// The PHC string that Argon2 with its default parameters produces for
/// `password` and the B64 salt `salt`, or `None` where it reports an error.
pub uninterp spec fn phc_hash(password: Seq<char>, salt: Seq<char>) -> Option<Seq<char>>;

/// What Argon2 makes of `password` against the PHC string `hash`:
/// `Some(true)` where it verifies, `Some(false)` where Argon2 reports a
/// wrong password, `None` where it reports any other error.
pub uninterp spec fn argon2_verdict(hash: Seq<char>, password: Seq<char>) -> Option<bool>;

/// Draws a fresh salt with `SaltString::generate` from the operating
/// system's random generator, `OsRng`, and returns its B64 text. Nothing is
/// promised of the value.
#[verifier::external_body]
fn fresh_salt() -> (salt: String) {
    argon2::password_hash::SaltString::generate(&mut rand_core::OsRng).as_str().to_string()
}

/// Hashes `password` with `Argon2::default().hash_password` under the salt
/// that `SaltString::from_b64` makes of `salt`, and renders the result as a
/// PHC string.
///
/// Believed of Argon2: the outcome depends on the two arguments alone, and
/// a hash it produces verifies against the password it was made from.
#[verifier::external_body]
fn argon2_hash(password: &str, salt: &str) -> (res: Result<String, argon2::password_hash::Error>)
    ensures
        match res {
            Ok(hash) => phc_hash(password@, salt@) == Some(hash@) && argon2_verdict(
                hash@,
                password@,
            ) == Some(true),
            Err(_) => phc_hash(password@, salt@) is None,
        },
{
    let salt = argon2::password_hash::SaltString::from_b64(salt)?;
    let hasher = argon2::Argon2::default();
    let hash = argon2::PasswordHasher::hash_password(&hasher, password.as_bytes(), &salt)?;
    Ok(hash.to_string())
}

/// Parses `hash` with `PasswordHash::new` and checks `password` against it
/// with `Argon2::default().verify_password`, which recomputes the digest
/// under the salt and the parameters that `hash` names. The error variant
/// `Password` is told apart from all others.
///
/// Believed of Argon2: the outcome depends on the two arguments alone.
#[verifier::external_body]
fn argon2_verify(hash: &str, password: &str) -> (verdict: Option<bool>)
    ensures
        verdict == argon2_verdict(hash@, password@),
{
    let parsed = match argon2::PasswordHash::new(hash) {
        Ok(parsed) => parsed,
        Err(_) => return None,
    };
    let hasher = argon2::Argon2::default();
    match argon2::PasswordVerifier::verify_password(&hasher, password.as_bytes(), &parsed) {
        Ok(()) => Some(true),
        Err(argon2::password_hash::Error::Password) => Some(false),
        Err(_) => None,
    }
}

/// The result of verification for each verdict of Argon2.
pub open spec fn verdict_outcome(verdict: Option<bool>) -> Result<(), PasswordError> {
    match verdict {
        Some(true) => Ok(()),
        Some(false) => Err(PasswordError::Mismatch),
        None => Err(PasswordError::CorruptHash),
    }
}

/// What `verify_password` returns.
pub open spec fn verify_password_spec(hash: Seq<char>, password: Seq<char>) -> Result<
    (),
    PasswordError,
> {
    verdict_outcome(argon2_verdict(hash, password))
}

/// What `hash_password_with_salt` returns.
pub open spec fn hash_password_spec(password: Seq<char>, salt: Seq<char>) -> Result<
    Seq<char>,
    PasswordError,
> {
    match phc_hash(password, salt) {
        Some(hash) => Ok(hash),
        None => Err(PasswordError::Hashing),
    }
}

/// The view of a hashing result.
pub open spec fn hashed_view(res: Result<String, PasswordError>) -> Result<
    Seq<char>,
    PasswordError,
> {
    match res {
        Ok(hash) => Ok(hash@),
        Err(e) => Err(e),
    }
}

/// Turns a verdict of Argon2 into the result of verification: a wrong
/// password and a corrupt hash are kept apart.
pub fn outcome_of_verdict(verdict: Option<bool>) -> (res: Result<(), PasswordError>)
    ensures
        res == verdict_outcome(verdict),
{
    match verdict {
        Some(true) => Ok(()),
        Some(false) => Err(PasswordError::Mismatch),
        None => Err(PasswordError::CorruptHash),
    }
}

/// Hashes `password` under the given B64 salt.
///
/// A hash that is returned verifies against `password`.
pub fn hash_password_with_salt(password: &str, salt: &str) -> (res: Result<String, PasswordError>)
    ensures
        hashed_view(res) == hash_password_spec(password@, salt@),
        res matches Ok(hash) ==> verify_password_spec(hash@, password@) == Ok::<
            (),
            PasswordError,
        >(()),
{
    match argon2_hash(password, salt) {
        Ok(hash) => Ok(hash),
        Err(_) => Err(PasswordError::Hashing),
    }
}

/// Hashes `password` under a fresh random salt, so that two calls on one
/// password give different hashes.
///
/// A hash that is returned verifies against `password`.
pub fn hash_password(password: &str) -> (res: Result<String, PasswordError>)
    ensures
        exists|salt: Seq<char>| hashed_view(res) == #[trigger] hash_password_spec(password@, salt),
        res matches Ok(hash) ==> verify_password_spec(hash@, password@) == Ok::<
            (),
            PasswordError,
        >(()),
{
    let salt = fresh_salt();
    hash_password_with_salt(password, salt.as_str())
}

/// Checks `password` against the stored PHC string `hash`.
pub fn verify_password(hash: &str, password: &str) -> (res: Result<(), PasswordError>)
    ensures
        res == verify_password_spec(hash@, password@),
{
    outcome_of_verdict(argon2_verify(hash, password))
}

/// Whether `password` verifies against `hash`. A corrupt hash counts as no
/// match.
pub fn password_matches(hash: &str, password: &str) -> (matches: bool)
    ensures
        matches == (verify_password_spec(hash@, password@) is Ok),
{
    match verify_password(hash, password) {
        Ok(()) => true,
        Err(_) => false,
    }
}

} // verus!
