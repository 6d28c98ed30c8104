//! The secret hasher: a slow, salted, one-way transform of a plaintext
//! password into the text that is stored in its place.

use crate::error_traits::{AppError, AppResult, ErrorView};
use vstd::prelude::*;

verus! {

/// The error type of the `bcrypt` crate, carried through opaquely.
#[verifier::external_type_specification]
#[verifier::external_body]
pub struct ExBcryptError(bcrypt::BcryptError);

/// Work factor shared by every hash the service produces.
pub const HASH_COST: u32 = 12;

/// Number of characters in every hash the hasher produces.
pub const HASH_LEN: usize = 60;

/// The decimal digit `d` as a character.
pub open spec fn digit_char(d: int) -> char {
    ('0' as int + d) as char
}

/// How every hash made at the work factor `cost` begins: the version `2b`
/// and the work factor in two digits, each set off by `$`.
pub open spec fn hash_prefix(cost: u32) -> Seq<char> {
    seq!['$', '2', 'b', '$', digit_char(cost as int / 10), digit_char(cost as int % 10), '$']
}

/// What `bcrypt::verify` answers for a password and a hash, where it answers
/// at all: whether hashing the password again, under the salt and the work
/// factor that the hash names, gives the digest that the hash holds.
pub uninterp spec fn bcrypt_accepts(password: Seq<char>, hash: Seq<char>) -> bool;

/// Whether `hash` is a hash of `password` as the service makes them: of
/// [`HASH_LEN`] characters, made at the work factor [`HASH_COST`], and
/// accepted for the password.
pub open spec fn is_hash_of(password: Seq<char>, hash: Seq<char>) -> bool {
    &&& hash.len() == HASH_LEN
    &&& hash.subrange(0, 7) == hash_prefix(HASH_COST)
    &&& bcrypt_accepts(password, hash)
}

/// Calls `bcrypt::hash`, which hashes `password` at the work factor `cost`
/// under a salt that it draws from the operating system.
///
/// The salt differs from call to call, so nothing is claimed about which hash
/// comes back, nor that one comes back at all. What is assumed of `bcrypt`: a
/// hash it returns is its 60-character encoding of version, cost, salt and
/// digest, in that order; `bcrypt::verify` accepts it for the password it was
/// made from; and a work factor outside 4 to 31 is refused.
#[verifier::external_body]
pub(crate) fn bcrypt_hash(password: &str, cost: u32) -> (r: Result<String, bcrypt::BcryptError>)
    ensures
        r matches Ok(h) ==> h@.len() == 60 && h@.subrange(0, 7) == hash_prefix(cost)
            && bcrypt_accepts(password@, h@),
        !(4 <= cost <= 31) ==> r is Err,
{
    bcrypt::hash(password, cost)
}

/// Calls `bcrypt::verify`, which reads salt and work factor out of `hash`,
/// hashes `password` under them and compares the digests in constant time.
///
/// What is assumed of `bcrypt`: its answer is a function of the two
/// arguments and goes by the name [`bcrypt_accepts`], and a hash that does
/// not have 60 characters is refused.
#[verifier::external_body]
pub(crate) fn bcrypt_verify(password: &str, hash: &str) -> (r: Result<bool, bcrypt::BcryptError>)
    ensures
        r matches Ok(accepted) ==> accepted == bcrypt_accepts(password@, hash@),
        hash@.len() != 60 ==> r is Err,
{
    bcrypt::verify(password, hash)
}

/// What an answer of the hasher looks like in the service: the answer
/// itself, or a hashing failure that carries the hasher's error.
pub fn hashing_outcome<T>(answer: Result<T, bcrypt::BcryptError>) -> (r: AppResult<T>)
    ensures
        match answer {
            Ok(value) => r == Ok::<T, AppError>(value),
            Err(e) => r == Err::<T, AppError>(AppError::PasswordHashing(e)),
        },
{
    match answer {
        Ok(value) => Ok(value),
        Err(e) => Err(AppError::from(e)),
    }
}

/// Hashes `plaintext` at the work factor [`HASH_COST`] under a salt that is
/// drawn afresh for every call. Whether the hasher succeeds is not decided
/// by the input; where it does, the result is a hash of `plaintext`, and
/// where it does not, the failure is a hashing failure.
pub fn hash_password(plaintext: &str) -> (r: AppResult<String>)
    ensures
        match r {
            Ok(h) => is_hash_of(plaintext@, h@),
            Err(e) => e@ == ErrorView::PasswordHashing,
        },
{
    hashing_outcome(bcrypt_hash(plaintext, HASH_COST))
}

/// Whether `secret_hash` is a hash of `plaintext`. The digests are compared
/// in constant time by the hasher, never by equality of the texts. A text
/// that is no hash is a hashing failure.
pub fn verify_password(plaintext: &str, secret_hash: &str) -> (r: AppResult<bool>)
    ensures
        match r {
            Ok(accepted) => accepted == bcrypt_accepts(plaintext@, secret_hash@),
            Err(e) => e@ == ErrorView::PasswordHashing,
        },
        secret_hash@.len() != HASH_LEN ==> r is Err,
{
    hashing_outcome(bcrypt_verify(plaintext, secret_hash))
}

} // verus!
