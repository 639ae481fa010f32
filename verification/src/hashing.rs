//! The password-hash primitive, consumed as opaque hash/verify operations
//! of the `bcrypt` crate. Whether a password matches a hash is a function of
//! the two strings alone, so that result carries a name, `bcrypt_verifies`;
//! hashing draws a fresh random salt, so nothing is assumed of the produced
//! text beyond the one fact bcrypt promises: verifying it against the same
//! password succeeds.

use vstd::prelude::*;

verus! {

/// What `bcrypt::verify(password, hash)` computes: `true` exactly when it
/// returns `Ok(true)`. A function of the two strings alone.
pub uninterp spec fn bcrypt_verifies(password: Seq<char>, hash: Seq<char>) -> bool;

#[verifier::external_type_specification]
#[verifier::external_body]
pub struct ExBcryptError(bcrypt::BcryptError);

/// Relies on `bcrypt::verify`: deciding whether `password` is equivalent to
/// `hash` depends on the password bytes and the hash text alone; an error
/// (a malformed hash) means in particular that the answer is not `Ok(true)`.
#[verifier::external_body]
pub(crate) fn verify_password(password: &str, hash: &str) -> (r: Result<bool, bcrypt::BcryptError>)
    ensures
        r matches Ok(b) ==> b == bcrypt_verifies(password@, hash@),
        r is Err ==> !bcrypt_verifies(password@, hash@),
{
    bcrypt::verify(password, hash)
}

/// Relies on `bcrypt::hash`: it salts randomly, so the produced text is
/// pinned down by nothing but bcrypt's own promise that verifying the
/// produced hash against the same password succeeds.
#[verifier::external_body]
pub(crate) fn hash_text(text: &str, cost: u32) -> (r: Result<String, bcrypt::BcryptError>)
    ensures
        r matches Ok(h) ==> bcrypt_verifies(text@, h@),
{
    bcrypt::hash(text, cost)
}

} // verus!
