//! Password hashing policy: a length limit checked before any hashing, and
//! Argon2id hashes in PHC string form.

use argon2::{Argon2, PasswordHasher, PasswordVerifier};
use vstd::prelude::*;
use vstd::utf8::*;

verus! {

/// The longest password, in UTF-8 bytes, that is hashed or verified.
pub const MAX_PASSWORD_LENGTH: usize = 1024;

/// Why a password could not be hashed or checked.
#[derive(Debug, Clone, Copy, PartialEq, Eq)]
pub enum PasswordError {
    /// The password exceeds `MAX_PASSWORD_LENGTH` bytes.
    TooLong,
    /// The stored hash is not a PHC string.
    InvalidHash,
    /// The hashing function failed.
    Hashing,
}

#[verifier::external_type_specification]
#[verifier::external_body]
pub struct ExPasswordHashError(argon2::password_hash::Error);

#[verifier::external_type_specification]
#[verifier::external_body]
pub struct ExPhcError(argon2::password_hash::phc::Error);

/// Whether `phc::PasswordHash::new` accepts `encoded` as a PHC string.
pub uninterp spec fn phc_string_parses(encoded: Seq<char>) -> bool;

/// Whether Argon2, run with the algorithm, version, parameters and salt that
/// the PHC string `encoded` carries, reproduces the hash in it for `password`.
pub uninterp spec fn argon2_accepts(password: Seq<u8>, encoded: Seq<char>) -> bool;

/// `phc::PasswordHash::new`: parses a PHC string. Claimed: it succeeds
/// exactly when `phc_string_parses` holds of the text.
#[verifier::external_body]
fn parse_phc_string(encoded: &str) -> (r: Result<(), argon2::password_hash::phc::Error>)
    ensures
        r is Ok <==> phc_string_parses(encoded@),
{
    argon2::PasswordHash::new(encoded).map(|_| ())
}

/// `PasswordVerifier::<str>::verify_password` of `Argon2::default()`. Claimed:
/// it succeeds exactly when `argon2_accepts` holds of the password bytes and the
/// encoded hash.
#[verifier::external_body]
fn argon2_verify(password: &[u8], encoded: &str) -> (r: Result<(), argon2::password_hash::Error>)
    ensures
        r is Ok <==> argon2_accepts(password@, encoded@),
{
    Argon2::default().verify_password(password, encoded)
}

/// `PasswordHasher::hash_password` of `Argon2::default()` (Argon2id, random
/// salt), rendered as a PHC string. Claimed of a success: the string starts with
/// `$argon2id$`, parses as a PHC string, and verifies the same password. The salt
/// is random, so nothing ties the text itself to the password.
#[verifier::external_body]
fn argon2_hash(password: &[u8]) -> (r: Result<String, argon2::password_hash::Error>)
    ensures
        r matches Ok(h) ==> {
            &&& h@.len() >= 10
            &&& h@.subrange(0, 10) == "$argon2id$"@
            &&& phc_string_parses(h@)
            &&& argon2_accepts(password@, h@)
        },
{
    Argon2::default().hash_password(password).map(|h| h.to_string())
}

/// Length of the UTF-8 encoding of `s`.
pub open spec fn utf8_len(s: Seq<char>) -> nat {
    encode_utf8(s).len()
}

/// What checking `password` against the stored hash `encoded` yields.
pub open spec fn password_check(password: Seq<char>, encoded: Seq<char>) -> Result<
    bool,
    PasswordError,
> {
    if utf8_len(password) > MAX_PASSWORD_LENGTH {
        Err(PasswordError::TooLong)
    } else if !phc_string_parses(encoded) {
        Err(PasswordError::InvalidHash)
    } else {
        Ok(argon2_accepts(encode_utf8(password), encoded))
    }
}

/// Rejects passwords longer than `MAX_PASSWORD_LENGTH` bytes.
pub fn validate_length(password: &str) -> (r: Result<(), PasswordError>)
    ensures
        r is Ok <==> utf8_len(password@) <= MAX_PASSWORD_LENGTH,
        r matches Err(e) ==> e == PasswordError::TooLong,
{
    if password.as_bytes().len() > MAX_PASSWORD_LENGTH {
        return Err(PasswordError::TooLong);
    }
    Ok(())
}

/// The result of a check, given whether the stored hash parsed and whether
/// Argon2 accepted the password against it.
pub fn check_outcome(hash_parses: bool, accepted: bool) -> (r: Result<bool, PasswordError>)
    ensures
        r == (if hash_parses {
            Ok::<bool, PasswordError>(accepted)
        } else {
            Err(PasswordError::InvalidHash)
        }),
{
    if hash_parses {
        Ok(accepted)
    } else {
        Err(PasswordError::InvalidHash)
    }
}

/// The result of hashing once the Argon2 hasher has answered: its PHC string
/// whenever it succeeded, whatever the password, and `Hashing` only when the
/// hasher itself failed.
pub fn hashed_password_outcome(hashed: Result<String, argon2::password_hash::Error>) -> (r: Result<
    String,
    PasswordError,
>)
    ensures
        hashed matches Ok(h) ==> r == Ok::<String, PasswordError>(h),
        hashed is Err ==> r == Err::<String, PasswordError>(PasswordError::Hashing),
{
    match hashed {
        Ok(h) => Ok(h),
        Err(_) => Err(PasswordError::Hashing),
    }
}

/// Hashes `password` with Argon2id and a random salt into a PHC string.
///
/// A password over the length limit is refused before any hashing. A hash
/// that is returned always verifies the password it was made from.
pub fn hash_password(password: &str) -> (r: Result<String, PasswordError>)
    ensures
        utf8_len(password@) > MAX_PASSWORD_LENGTH <==> r == Err::<String, PasswordError>(
            PasswordError::TooLong,
        ),
        r matches Err(e) ==> e == PasswordError::TooLong || e == PasswordError::Hashing,
        r matches Ok(h) ==> {
            &&& password_check(password@, h@) == Ok::<bool, PasswordError>(true)
            &&& h@.len() >= 10
            &&& h@.subrange(0, 10) == "$argon2id$"@
        },
{
    validate_length(password)?;
    hashed_password_outcome(argon2_hash(password.as_bytes()))
}

/// Checks `password` against the PHC string `encoded_hash`.
pub fn verify_password(password: &str, encoded_hash: &str) -> (r: Result<bool, PasswordError>)
    ensures
        r == password_check(password@, encoded_hash@),
{
    validate_length(password)?;
    let parses = parse_phc_string(encoded_hash).is_ok();
    if !parses {
        return check_outcome(false, false);
    }
    let accepted = argon2_verify(password.as_bytes(), encoded_hash).is_ok();
    check_outcome(true, accepted)
}

} // verus!
