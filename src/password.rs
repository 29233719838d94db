//! Password digests through bcrypt.
use vstd::prelude::*;

verus! {

#[verifier::external_type_specification]
#[verifier::external_body]
pub struct ExBcryptError(bcrypt::BcryptError);

/// What bcrypt's `verify` reports for a password and a stored digest: `Some`
/// with the verdict, or `None` where the digest is malformed.
pub uninterp spec fn bcrypt_verdict(password: Seq<char>, digest: Seq<char>) -> Option<bool>;

/// The bcrypt work factors that `bcrypt::hash` accepts.
pub open spec fn cost_allowed(cost: u32) -> bool {
    4 <= cost <= 31
}

/// Relies on bcrypt::hash: it refuses a cost outside 4..=31, and a digest it
/// returns is one that `bcrypt::verify` accepts for the same password.
#[verifier::external_body]
fn bcrypt_hash(password: &str, cost: u32) -> (r: Result<String, bcrypt::BcryptError>)
    ensures
        !cost_allowed(cost) ==> r is Err,
        r is Ok ==> bcrypt_verdict(password@, r->Ok_0@) == Some(true),
{
    bcrypt::hash(password, cost)
}

/// Relies on bcrypt::verify: it depends on the password and the digest alone.
#[verifier::external_body]
fn bcrypt_verify(password: &str, digest: &str) -> (r: Result<bool, bcrypt::BcryptError>)
    ensures
        r is Ok <==> bcrypt_verdict(password@, digest@) is Some,
        r is Ok ==> bcrypt_verdict(password@, digest@) == Some(r->Ok_0),
{
    bcrypt::verify(password, digest)
}

/// A salted digest of `password`. Fails with `HashingError` where bcrypt does,
/// always for a cost outside 4..=31.
pub fn hash_password(password: &str, cost: u32) -> (r: Result<String, crate::error::EnrollError>)
    ensures
        !cost_allowed(cost) ==> r == Err::<String, crate::error::EnrollError>(crate::error::EnrollError::HashingError),
        r is Err ==> r == Err::<String, crate::error::EnrollError>(crate::error::EnrollError::HashingError),
        r is Ok ==> bcrypt_verdict(password@, r->Ok_0@) == Some(true),
{
    match bcrypt_hash(password, cost) {
        Ok(d) => Ok(d),
        Err(_) => Err(crate::error::EnrollError::HashingError),
    }
}

/// Whether `password` matches `digest`; a malformed digest counts as no match.
pub fn verify_password(password: &str, digest: &str) -> (r: bool)
    ensures
        r == (bcrypt_verdict(password@, digest@) == Some(true)),
{
    match bcrypt_verify(password, digest) {
        Ok(b) => b,
        Err(_) => false,
    }
}

} // verus!
