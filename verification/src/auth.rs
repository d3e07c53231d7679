//! Master-password authentication: Argon2id hashing into a self-describing
//! PHC string, and verification against such a string.
//!
//! The hash string embeds algorithm id, cost parameters and salt, so it stays
//! verifiable even if default parameters change later. Verification re-runs
//! the algorithm with the embedded parameters and compares in constant time.
use vstd::prelude::*;

use crate::errors::VaultError;

verus! {

use vstd::string::StringSliceAdditionalSpecFns;

use argon2::password_hash::PasswordHasher;
use argon2::password_hash::PasswordVerifier;
use argon2::password_hash::SaltString;

/// Declares the outside error type of the `argon2` password-hash API so it
/// can appear in the trusted wrappers' results.
#[verifier::external_type_specification]
#[verifier::external_body]
pub struct ExPasswordHashError(argon2::password_hash::errors::Error);

/// Whether a stored hash string parses as a PHC string
/// (`PasswordHash::new` accepts it).
pub uninterp spec fn phc_well_formed(phc: Seq<char>) -> bool;

/// Whether the password-hash algorithm named by the PHC string `phc`,
/// re-run with the parameters and salt embedded in `phc` over the password
/// bytes `passwd`, reproduces the hash embedded in `phc`. A deterministic
/// function of the two arguments: the algorithm, parameters and salt are all
/// part of `phc` itself.
pub uninterp spec fn phc_verifies(passwd: Seq<u8>, phc: Seq<char>) -> bool;

/// Relies on `argon2::password_hash::SaltString::generate`,
/// `Argon2::hash_password` and `PasswordHash::to_string`: hashing a password
/// with a fresh salt yields a well-formed PHC string, and `verify_password`
/// over the same password recomputes the embedded hash from the embedded
/// salt and parameters and finds it equal.
#[verifier::external_body]
fn phc_hash(passwd: &str) -> (r: Result<String, argon2::password_hash::errors::Error>)
    ensures
        r matches Ok(h) ==> phc_well_formed(h@) && phc_verifies(passwd.spec_bytes(), h@),
{
    let salt = SaltString::generate(&mut argon2::password_hash::rand_core::OsRng);
    let hash = argon2::Argon2::default().hash_password(passwd.as_bytes(), &salt)?;
    Ok(hash.to_string())
}

/// Relies on `argon2::password_hash::PasswordHash::new` (parses exactly the
/// PHC strings it accepts) and `Argon2::verify_password` (recomputes the hash
/// with the embedded parameters and compares in constant time).
#[verifier::external_body]
fn phc_check(passwd: &str, hash: &str) -> (r: Result<
    bool,
    argon2::password_hash::errors::Error,
>)
    ensures
        r is Ok <==> phc_well_formed(hash@),
        r matches Ok(b) ==> b == phc_verifies(passwd.spec_bytes(), hash@),
{
    let parsed = argon2::password_hash::PasswordHash::new(hash)?;
    Ok(argon2::Argon2::default().verify_password(passwd.as_bytes(), &parsed).is_ok())
}

/// Hashes `passwd` with a fresh random salt into a self-describing PHC
/// string. Fails only on an internal RNG or algorithm failure.
pub fn hash_password(passwd: &str) -> (r: Result<String, VaultError>)
    ensures
        r matches Ok(h) ==> phc_well_formed(h@) && phc_verifies(passwd.spec_bytes(), h@),
        r is Err ==> r == Err::<String, VaultError>(VaultError::HashingFailed),
{
    match phc_hash(passwd) {
        Ok(h) => Ok(h),
        Err(_) => Err(VaultError::HashingFailed),
    }
}

/// Verifies `passwd` against the PHC string `hash`: parses the string
/// (`MalformedHash` if it is not a recognized format) and re-runs the
/// embedded algorithm; true exactly when the recomputed hash matches.
pub fn verify_passwd(passwd: &str, hash: &str) -> (r: Result<bool, VaultError>)
    ensures
        r is Ok <==> phc_well_formed(hash@),
        r matches Ok(b) ==> b == phc_verifies(passwd.spec_bytes(), hash@),
        r is Err ==> r == Err::<bool, VaultError>(VaultError::MalformedHash),
{
    match phc_check(passwd, hash) {
        Ok(b) => Ok(b),
        Err(_) => Err(VaultError::MalformedHash),
    }
}

} // verus!
