//! Checking a plain-text password against a stored hash.

use crate::models::user::UserError;
use vstd::prelude::*;

verus! {

/// Error of the `bcrypt` crate, carried through as an opaque value.
#[verifier::external_type_specification]
#[verifier::external_body]
pub struct ExBcryptError(bcrypt::BcryptError);

/// Whether `plaintext` is the password that `stored_hash` was made from;
/// `None` where `stored_hash` is not a well-formed hash.
pub uninterp spec fn password_check(plaintext: Seq<char>, stored_hash: Seq<char>) -> Option<bool>;

/// `bcrypt::verify`: the answer depends on the two texts alone; it is an
/// error exactly where the stored hash cannot be taken apart.
#[verifier::external_body]
fn bcrypt_verify(plaintext: &str, stored_hash: &str) -> (r: Result<bool, bcrypt::BcryptError>)
    ensures
        match r {
            Ok(same) => password_check(plaintext@, stored_hash@) == Some(same),
            Err(_) => password_check(plaintext@, stored_hash@) is None,
        },
{
    bcrypt::verify(plaintext, stored_hash)
}

/// What `verify` returns for each answer of the hash check.
pub open spec fn verdict(check: Option<bool>) -> Result<bool, UserError> {
    match check {
        Some(same) => Ok(same),
        None => Err(UserError::BadDecryption),
    }
}

/// Checks `plaintext` against `stored_hash`. A wrong password is `Ok(false)`;
/// only a malformed hash is an error.
pub fn verify(plaintext: &str, stored_hash: &str) -> (r: Result<bool, UserError>)
    ensures
        r == verdict(password_check(plaintext@, stored_hash@)),
{
    match bcrypt_verify(plaintext, stored_hash) {
        Ok(same) => Ok(same),
        Err(_) => Err(UserError::BadDecryption),
    }
}

} // verus!
