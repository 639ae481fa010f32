//! Credential and secret-vault core of a password-manager service.
//!
//! The library authenticates users, issues session tokens, and stores
//! heterogeneous secret records ("elements") on behalf of an authenticated
//! owner. Persistence, HTTP routing and the token-signature primitive are
//! external collaborators; this crate holds the verified record model, the
//! credential store with its uniqueness invariant, and the login and
//! registration state machines.

use vstd::prelude::*;

pub mod auth;
pub mod element;
pub mod hashing;
pub mod laws;
pub mod store;
pub mod token;
pub mod user;

verus! {

/// Equality of two string slices.
///
/// Relies on `str`'s `PartialEq` impl from std: two slices are equal exactly
/// when they consist of the same characters.
#[verifier::external_body]
pub(crate) fn str_eq(a: &str, b: &str) -> (r: bool)
    ensures
        r == (a@ == b@),
{
    a == b
}

} // verus!
