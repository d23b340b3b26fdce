//! Password hashing and checking, done by Argon2 over PHC strings.

use argon2::PasswordHasher;
use argon2::PasswordVerifier;
use vstd::prelude::*;
use vstd::utf8::encode_utf8;

verus! {

#[verifier::external_type_specification]
#[verifier::external_body]
pub struct ExPasswordHashError(argon2::password_hash::Error);

/// Why a password could not be hashed or checked.
#[derive(Debug, Clone, Copy, PartialEq, Eq, Structural)]
pub enum CryptoError {
    /// Argon2 did not produce a hash.
    HashFailed,
    /// The stored hash is not a PHC string.
    MalformedHash,
}

/// The longest password that Argon2 hashes, in bytes.
pub const MAX_PASSWORD_BYTES: u64 = 0xFFFF_FFFF;

/// The password is short enough to be hashed: its UTF-8 form has at most
/// `MAX_PASSWORD_BYTES` bytes.
pub open spec fn spec_hashable(password: Seq<char>) -> bool {
    encode_utf8(password).len() <= MAX_PASSWORD_BYTES
}

/// Whether `password` is the one that the PHC string `stored_hash` was made
/// from, under the parameters that the string names; `None` where
/// `stored_hash` is no PHC string.
pub uninterp spec fn phc_verification(stored_hash: Seq<char>, password: Seq<char>) -> Option<bool>;

/// Hashes a password with `Argon2::default().hash_password` under a salt from
/// `SaltString::generate` over the system's generator, and writes the hash
/// as a PHC string. Trusted: the salt is random, so all that is said of the
/// string is that the password checks against it; and under the default
/// parameters and a generated salt the one input that Argon2 refuses is a
/// password of more than `MAX_PASSWORD_BYTES` bytes.
#[verifier::external_body]
fn argon2_hash(password: &str) -> (r: Result<String, argon2::password_hash::Error>)
    ensures
        r matches Ok(hash) ==> phc_verification(hash@, password@) == Some(true),
        spec_hashable(password@) ==> r is Ok,
{
    let salt = argon2::password_hash::SaltString::generate(
        &mut argon2::password_hash::rand_core::OsRng,
    );
    Ok(argon2::Argon2::default().hash_password(password.as_bytes(), &salt)?.to_string())
}

/// Reads a PHC string with `PasswordHash::new` and checks a password against
/// it with `Argon2::default().verify_password`. Trusted: the outcome is the
/// one that `phc_verification` names, an error standing for a string that
/// `PasswordHash::new` does not read.
#[verifier::external_body]
fn argon2_verify(stored_hash: &str, password: &str) -> (r: Result<
    bool,
    argon2::password_hash::Error,
>)
    ensures
        match r {
            Ok(matches) => phc_verification(stored_hash@, password@) == Some(matches),
            Err(_) => phc_verification(stored_hash@, password@) is None,
        },
{
    let parsed = argon2::password_hash::PasswordHash::new(stored_hash)?;
    Ok(argon2::Argon2::default().verify_password(password.as_bytes(), &parsed).is_ok())
}

/// What `validate_hash` answers.
pub open spec fn spec_validate_hash(stored_hash: Seq<char>, password: Seq<char>) -> Result<
    bool,
    CryptoError,
> {
    match phc_verification(stored_hash, password) {
        Some(matches) => Ok(matches),
        None => Err(CryptoError::MalformedHash),
    }
}

/// Hashes a password under a fresh random salt. The password checks
/// against the hash. Only a password that is too long to be hashed fails.
pub fn generate_hash(input_string: &String) -> (r: Result<String, CryptoError>)
    ensures
        match r {
            Ok(hash) => spec_validate_hash(hash@, input_string@) == Ok::<bool, CryptoError>(true),
            Err(e) => e == CryptoError::HashFailed && !spec_hashable(input_string@),
        },
{
    match argon2_hash(input_string.as_str()) {
        Ok(hash) => Ok(hash),
        Err(_) => Err(CryptoError::HashFailed),
    }
}

/// Checks a password against a stored hash.
pub fn validate_hash(stored_hash: &String, input_string: &String) -> (r: Result<bool, CryptoError>)
    ensures
        r == spec_validate_hash(stored_hash@, input_string@),
{
    match argon2_verify(stored_hash.as_str(), input_string.as_str()) {
        Ok(matches) => Ok(matches),
        Err(_) => Err(CryptoError::MalformedHash),
    }
}

} // verus!
