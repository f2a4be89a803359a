//! Password hashing with bcrypt.

use vstd::prelude::*;
use crate::models::user::opt_text;
use crate::services::traits::AuthError;

verus! {

/// The work factor that the service hashes new passwords with.
pub const HASH_COST: u32 = 14;

/// The lowest work factor that the hasher accepts.
pub const MIN_HASH_COST: u32 = 4;

/// The highest work factor that the hasher accepts.
pub const MAX_HASH_COST: u32 = 31;

/// What `bcrypt::verify` answers for a password and a stored hash:
/// `Some(true)` where the password matches, `Some(false)` where it does
/// not, `None` where the hash cannot be read.
pub uninterp spec fn password_matches(password: Seq<char>, hash: Seq<char>) -> Option<bool>;

/// The decimal digit for a value below 10.
pub open spec fn dec_digit(d: int) -> char {
    if d == 0 {
        '0'
    } else if d == 1 {
        '1'
    } else if d == 2 {
        '2'
    } else if d == 3 {
        '3'
    } else if d == 4 {
        '4'
    } else if d == 5 {
        '5'
    } else if d == 6 {
        '6'
    } else if d == 7 {
        '7'
    } else if d == 8 {
        '8'
    } else {
        '9'
    }
}

/// The shape of a hash made at the work factor `cost`: 60 characters that
/// begin with `$2b$`, the work factor in two decimal digits, and `$`. The
/// salt and the digest follow.
pub open spec fn is_hash_at(hash: Seq<char>, cost: u32) -> bool {
    &&& hash.len() == 60
    &&& hash[0] == '$'
    &&& hash[1] == '2'
    &&& hash[2] == 'b'
    &&& hash[3] == '$'
    &&& hash[4] == dec_digit(cost as int / 10)
    &&& hash[5] == dec_digit(cost as int % 10)
    &&& hash[6] == '$'
}

/// Hashes a password with `bcrypt::hash` under a fresh random salt; `None`
/// stands for its error. The hash differs from call to call, so the
/// contract says only what holds of each one: `bcrypt::verify` accepts the
/// password against it, and it has the shape that bcrypt writes for the
/// work factor. A work factor outside 4..=31 is always refused.
#[verifier::external_body]
pub(crate) fn hash_password(password: &str, cost: u32) -> (hash: Option<String>)
    ensures
        hash matches Some(h) ==> password_matches(password@, h@) == Some(true),
        hash matches Some(h) ==> is_hash_at(h@, cost),
        !(MIN_HASH_COST <= cost <= MAX_HASH_COST) ==> hash is None,
{
    match bcrypt::hash(password, cost) {
        Ok(h) => Some(h),
        Err(_) => None,
    }
}

/// Checks a password against a stored hash with `bcrypt::verify`, which
/// recomputes the hash under the stored salt and compares in constant
/// time; `None` stands for its error.
#[verifier::external_body]
pub(crate) fn verify_password(password: &str, hash: &str) -> (verdict: Option<bool>)
    ensures
        verdict == password_matches(password@, hash@),
{
    match bcrypt::verify(password, hash) {
        Ok(b) => Some(b),
        Err(_) => None,
    }
}

/// What the authority makes of the hasher's answer: its failure is a
/// `PasswordHashError`.
pub open spec fn hash_outcome(hash: Option<Seq<char>>) -> Result<Seq<char>, AuthError> {
    match hash {
        Some(h) => Ok(h),
        None => Err(AuthError::PasswordHashError),
    }
}

/// What the authority makes of the verifier's answer: a mismatch is an
/// `InvalidPassword`, a hash that cannot be read a `PasswordHashError`.
pub open spec fn verdict_outcome(verdict: Option<bool>) -> Result<(), AuthError> {
    match verdict {
        Some(true) => Ok(()),
        Some(false) => Err(AuthError::InvalidPassword),
        None => Err(AuthError::PasswordHashError),
    }
}

/// The value of a result that carries a text.
pub open spec fn text_result(res: Result<String, AuthError>) -> Result<Seq<char>, AuthError> {
    match res {
        Ok(t) => Ok(t@),
        Err(e) => Err(e),
    }
}

/// Turns the hasher's answer into the authority's; see [`hash_outcome`].
pub fn hash_or_error(hash: Option<String>) -> (res: Result<String, AuthError>)
    ensures
        text_result(res) == hash_outcome(opt_text(hash)),
{
    match hash {
        Some(h) => Ok(h),
        None => Err(AuthError::PasswordHashError),
    }
}

/// Turns the verifier's answer into the authority's; see
/// [`verdict_outcome`].
pub fn verdict_or_error(verdict: Option<bool>) -> (res: Result<(), AuthError>)
    ensures
        res == verdict_outcome(verdict),
{
    match verdict {
        Some(true) => Ok(()),
        Some(false) => Err(AuthError::InvalidPassword),
        None => Err(AuthError::PasswordHashError),
    }
}

/// Hashes a password for storage with the work factor `cost`. Each call
/// salts anew, so two hashes of one password differ; every hash that comes
/// back is one that the password verifies against and has the shape of a
/// hash made at `cost`. A work factor outside 4..=31 always fails.
pub fn hash_for_storage(password: &str, cost: u32) -> (res: Result<String, AuthError>)
    ensures
        match res {
            Ok(h) => {
                &&& password_matches(password@, h@) == Some(true)
                &&& is_hash_at(h@, cost)
                &&& MIN_HASH_COST <= cost <= MAX_HASH_COST
            },
            Err(e) => e == AuthError::PasswordHashError,
        },
{
    hash_or_error(hash_password(password, cost))
}

/// Checks a password against a stored hash.
pub fn check_password(password: &str, hash: &str) -> (res: Result<(), AuthError>)
    ensures
        res == verdict_outcome(password_matches(password@, hash@)),
{
    verdict_or_error(verify_password(password, hash))
}

} // verus!
