//! Salted one-way hashing of passwords, and verification against a stored
//! hash. The work is done by bcrypt; this module fixes what the rest of the
//! library may rely on.

use vstd::prelude::*;
use crate::error::{AuthError, Rejection};

verus! {

/// The error type of the `bcrypt` crate: carried, and written out for the log.
#[verifier::external_type_specification]
#[verifier::external_body]
pub struct ExBcryptError(bcrypt::BcryptError);

/// The lowest work factor bcrypt accepts.
pub const MIN_COST: u32 = 4;

/// The highest work factor bcrypt accepts.
pub const MAX_COST: u32 = 31;

/// The work factor used where none is configured.
pub const DEFAULT_COST: u32 = 12;

/// What `bcrypt::verify` answers for a password and a stored hash: `Some` of
/// its answer, `None` where it reports an error. Nothing more is known of
/// the answer than what the functions below say; in particular bcrypt reads
/// no more than the first 72 bytes of a password.
pub uninterp spec fn bcrypt_verdict(password: Seq<char>, hash: Seq<char>) -> Option<bool>;

/// The value of the decimal digit `c`, if it is one.
pub open spec fn digit_value(c: char) -> Option<int> {
    if '0' <= c && c <= '9' {
        Some((c as int) - ('0' as int))
    } else {
        None
    }
}

/// The work factor that a bcrypt hash says it was made at: the two digits
/// between its second and its third `$`, as in `$2b$12$...`.
pub open spec fn written_cost(hash: Seq<char>) -> Option<int> {
    if hash.len() >= 7 && hash[0] == '$' && hash[3] == '$' && hash[6] == '$' {
        match (digit_value(hash[4]), digit_value(hash[5])) {
            (Some(tens), Some(ones)) => Some(10 * tens + ones),
            _ => None,
        }
    } else {
        None
    }
}

/// The outcome of verifying `password` against `hash`.
pub open spec fn verification(password: Seq<char>, hash: Seq<char>) -> Result<bool, AuthError> {
    match bcrypt_verdict(password, hash) {
        Some(matched) => Ok(matched),
        None => Err(AuthError::VerificationFailure),
    }
}

/// Calls `bcrypt::hash` on the UTF-8 bytes of `password`.
///
/// Trusted: bcrypt refuses a cost outside 4..=31. A hash it returns is
/// written as `$2b$`, the cost in two digits, `$`, salt and digest, so the
/// cost can be read back from it. And such a hash is one that
/// `bcrypt::verify` accepts for the same password, since `verify` reads cost
/// and salt back from the hash, runs the same computation on the password
/// and compares. Nothing is claimed about which salt is drawn, nor that a
/// hash comes back at all (the random source may fail).
#[verifier::external_body]
fn bcrypt_hash(password: &str, cost: u32) -> (outcome: Result<String, bcrypt::BcryptError>)
    ensures
        outcome is Ok ==> MIN_COST <= cost <= MAX_COST,
        outcome matches Ok(hash) ==> written_cost(hash@) == Some(cost as int),
        outcome matches Ok(hash) ==> bcrypt_verdict(password@, hash@) == Some(true),
{
    bcrypt::hash(password.as_bytes(), cost)
}

/// Calls `bcrypt::verify` on the UTF-8 bytes of `password` and on `hash`.
///
/// Trusted: the answer depends on the two texts alone, so it has a name,
/// [`bcrypt_verdict`]; an error stands for `None`.
#[verifier::external_body]
fn bcrypt_verify(password: &str, hash: &str) -> (outcome: Result<bool, bcrypt::BcryptError>)
    ensures
        outcome matches Ok(matched) ==> bcrypt_verdict(password@, hash@) == Some(matched),
        outcome is Err ==> bcrypt_verdict(password@, hash@) is None,
{
    bcrypt::verify(password, hash)
}

/// Writes out a bcrypt error in the crate's own words, through its
/// `Display`. Nothing is claimed of the text.
#[verifier::external_body]
fn describe_bcrypt_error(error: &bcrypt::BcryptError) -> (text: String) {
    error.to_string()
}

/// Turns what bcrypt answered to a hashing request into the library's terms:
/// the hash, or a `HashingFailure` whatever went wrong, with bcrypt's words
/// as its cause.
pub fn hashed_credential(outcome: Result<String, bcrypt::BcryptError>) -> (hashed: Result<
    String,
    Rejection,
>)
    ensures
        match outcome {
            Ok(hash) => hashed matches Ok(h) && h@ == hash@,
            Err(_) => hashed matches Err(rejection) && rejection.error
                == AuthError::HashingFailure,
        },
{
    match outcome {
        Ok(hash) => Ok(hash),
        Err(error) => Err(
            Rejection { error: AuthError::HashingFailure, cause: describe_bcrypt_error(&error) },
        ),
    }
}

/// Turns what bcrypt answered to a verification request into the library's
/// terms: whether the password matched, or a `VerificationFailure` where the
/// stored hash could not be read, with bcrypt's words as its cause.
pub fn verification_result(outcome: Result<bool, bcrypt::BcryptError>) -> (verified: Result<
    bool,
    Rejection,
>)
    ensures
        match outcome {
            Ok(matched) => verified matches Ok(v) && v == matched,
            Err(_) => verified matches Err(rejection) && rejection.error
                == AuthError::VerificationFailure,
        },
{
    match outcome {
        Ok(matched) => Ok(matched),
        Err(error) => Err(
            Rejection {
                error: AuthError::VerificationFailure,
                cause: describe_bcrypt_error(&error),
            },
        ),
    }
}

/// Hashes `plaintext` with a fresh random salt at work factor `cost`.
///
/// The only error is `HashingFailure`, and a cost outside
/// [`MIN_COST`]`..=`[`MAX_COST`] always gives it. A hash that is returned
/// was made at `cost`, says so, and verifies against `plaintext`.
pub fn hash(plaintext: &str, cost: u32) -> (hashed: Result<String, Rejection>)
    ensures
        !(MIN_COST <= cost <= MAX_COST) ==> hashed is Err,
        hashed matches Ok(h) ==> written_cost(h@) == Some(cost as int),
        hashed matches Ok(h) ==> verification(plaintext@, h@) == Ok::<bool, AuthError>(true),
        hashed matches Err(rejection) ==> rejection.error == AuthError::HashingFailure,
{
    hashed_credential(bcrypt_hash(plaintext, cost))
}

/// Whether `plaintext` is the password that `hash` was made from, as far as
/// bcrypt can tell.
///
/// A password that does not match is `Ok(false)`; `VerificationFailure` is
/// kept for a stored hash that cannot be read.
pub fn verify(plaintext: &str, hash: &str) -> (verified: Result<bool, Rejection>)
    ensures
        match verified {
            Ok(matched) => verification(plaintext@, hash@) == Ok::<bool, AuthError>(matched),
            Err(rejection) => verification(plaintext@, hash@) == Err::<bool, AuthError>(
                rejection.error,
            ),
        },
{
    verification_result(bcrypt_verify(plaintext, hash))
}

} // verus!
