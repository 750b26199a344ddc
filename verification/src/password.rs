//! Password hashes.

use vstd::prelude::*;
use crate::error::{DriverError, DriverResult};

verus! {

/// Whether `password` matches the bcrypt hash `hash`; `None` where `hash` is
/// no bcrypt hash.
pub uninterp spec fn bcrypt_verified(password: Seq<char>, hash: Seq<char>) -> Option<bool>;

/// Hashes a password with bcrypt at the default cost, under a salt that
/// bcrypt draws.
///
/// Calls `bcrypt::hash`; `None` where it reports an error, which it does
/// where no salt can be drawn. Which hash comes back is not claimed: two
/// calls may differ. The crate's `verify` recomputes the hash from the cost
/// and salt that a hash string holds, so a hash matches the password it was
/// made from.
#[verifier::external_body]
fn bcrypt_hash(password: &str) -> (r: Option<String>)
    ensures
        r matches Some(h) ==> bcrypt_verified(password@, h@) == Some(true),
{
    bcrypt::hash(password, bcrypt::DEFAULT_COST).ok()
}

/// Checks a password against a bcrypt hash.
///
/// Calls `bcrypt::verify`; `None` where it reports an error.
#[verifier::external_body]
fn bcrypt_verify(password: &str, hash: &str) -> (r: Option<bool>)
    ensures
        r == bcrypt_verified(password@, hash@),
{
    bcrypt::verify(password, hash).ok()
}

/// The characters of an optional string slice.
pub open spec fn opt_str_view(s: Option<&str>) -> Option<Seq<char>> {
    match s {
        Some(x) => Some(x@),
        None => None,
    }
}

/// Hashes a password; no password gives no hash. Where a password is given
/// the result is a hash that the password verifies against, or the error
/// `PasswordHash` where no hash could be made.
pub fn hash_password(password: Option<&str>) -> (r: DriverResult<Option<String>>)
    ensures
        password is None ==> r == Ok::<Option<String>, DriverError>(None),
        password is Some ==> (r matches Ok(Some(h)) && bcrypt_verified(password->0@, h@) == Some(
            true,
        )) || r == Err::<Option<String>, DriverError>(DriverError::PasswordHash),
{
    match password {
        Some(p) => match bcrypt_hash(p) {
            Some(h) => Ok(Some(h)),
            None => Err(DriverError::PasswordHash),
        },
        None => Ok(None),
    }
}

/// What [`check_password`] returns.
pub open spec fn check_password_spec(password_hash: Option<Seq<char>>, password: Seq<char>)
    -> Result<(), DriverError> {
    match password_hash {
        None => Err(DriverError::UserPasswordUndefined),
        Some(h) => match bcrypt_verified(password, h) {
            None => Err(DriverError::Bcrypt),
            Some(false) => Err(DriverError::UserPasswordIncorrect),
            Some(true) => Ok(()),
        },
    }
}

/// Checks a password against a stored hash. Fails when there is no hash, when
/// the hash cannot be read, and when the password does not match.
pub fn check_password(password_hash: Option<&str>, password: &str) -> (r: DriverResult<()>)
    ensures
        r == check_password_spec(opt_str_view(password_hash), password@),
{
    match password_hash {
        None => Err(DriverError::UserPasswordUndefined),
        Some(h) => match bcrypt_verify(password, h) {
            None => Err(DriverError::Bcrypt),
            Some(false) => Err(DriverError::UserPasswordIncorrect),
            Some(true) => Ok(()),
        },
    }
}

} // verus!
