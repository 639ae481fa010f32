//! The cross-function guarantees of the credential lifecycle, stated once
//! and proved, so a reader sees them rather than having to derive them from
//! the individual contracts.

use vstd::prelude::*;

use crate::hashing::bcrypt_verifies;
use crate::store::{
    id_present, lemma_user_by_id, lemma_user_by_login, login_taken, unique_users, user_by_id,
    user_by_login,
};
use crate::token::TokenPair;
use crate::user::UserView;

verus! {

/// A successful registration creates exactly one user record, and a token
/// pair issued for the created subject is bound to that record's id: the
/// store grows by the one pushed record, that record is the one its id looks
/// up, and both tokens of the pair carry that id.
pub proof fn law_registration_creates_one_bound_record(
    s0: Seq<UserView>,
    s1: Seq<UserView>,
    v: UserView,
    p: TokenPair,
)
    requires
        unique_users(s1),
        s1 == s0.push(v),
        p.access_token.subject_id == v.id,
        p.refresh_token.subject_id == v.id,
    ensures
        s1.len() == s0.len() + 1,
        id_present(s1, v.id),
        user_by_id(s1, v.id) == v,
        p.access_token.subject_id == user_by_id(s1, v.id).id,
        p.refresh_token.subject_id == user_by_id(s1, v.id).id,
{
    assert(s1[s0.len() as int] == v);
    lemma_user_by_id(s1, s0.len() as int, v.id);
}

/// Two registrations of the same login can never both succeed: the store a
/// successful registration leaves behind has that login taken, and on such a
/// store the registration machine reports a conflict and creates nothing
/// (`registration`'s contract), so the concurrent loser always receives a
/// conflict outcome.
pub proof fn law_registration_race_single_winner(s0: Seq<UserView>, v: UserView, login: Seq<char>)
    requires
        v.login == login,
    ensures
        login_taken(s0.push(v), login),
{
    assert(s0.push(v)[s0.len() as int] == v);
}

/// A user whose record was just created can log in: the fresh record is the
/// one its login looks up, so whenever the registered password verifies
/// against the stored hash — which `registration` guarantees of the hash it
/// stores — the login machine's success condition holds for the new user.
pub proof fn law_login_after_registration(s0: Seq<UserView>, v: UserView, pw: Seq<char>)
    requires
        unique_users(s0.push(v)),
        bcrypt_verifies(pw, v.password_hash),
    ensures
        login_taken(s0.push(v), v.login),
        user_by_login(s0.push(v), v.login) == v,
        bcrypt_verifies(pw, user_by_login(s0.push(v), v.login).password_hash),
{
    lemma_user_by_login(s0.push(v), s0.len() as int, v.login);
}

} // verus!
