//! The authentication service: login and registration as two explicit state
//! machines over the credential store, the password-hash primitive and the
//! token issuer. Both machines are terminal on first failure. The final
//! transition of each machine — issuing the token pair — needs the two
//! opaque sign operations, which only the surrounding program can perform;
//! the service therefore ends at a decision (`Authenticated` / `Created`
//! with the subject id, or a named failure), and `finish_login` /
//! `finish_registration` fold the issuance outcome into the final result.

use vstd::prelude::*;

use crate::hashing::{bcrypt_verifies, hash_text, verify_password};
use crate::store::{
    index_of_id, login_taken, mail_taken, mail_taken_by_other, login_taken_by_other, id_present,
    user_by_id, user_by_login, CredentialStore, FindUserBy, StoreError,
};
use crate::token::{TokenError, TokenIssuer, TokenPair};
use crate::user::{EditUserRequest, LoginRequest, RegistrationRequest, User, UserView};

verus! {

/// The work factor passed to the password-hash primitive.
pub const HASH_COST: u32 = 4;

/// A named login failure; every caller must handle each one.
pub enum LoginFailure {
    /// No user has the presented login.
    WrongLogin,
    /// The presented password does not match the stored hash.
    WrongPassword,
    /// Token issuance failed; the root cause is deliberately not exposed.
    Unknown,
}

/// A named registration failure; every caller must handle each one.
pub enum RegistrationFailure {
    /// The presented mail is already registered.
    AlreadyRegisteredByEmail,
    /// The presented login is already registered.
    AlreadyRegisteredByLogin,
    /// The password could not be hashed.
    WrongPassword,
    /// An infrastructure failure; the root cause is deliberately not exposed.
    Unknown,
}

/// Where the login machine stops before token issuance.
pub enum LoginOutcome {
    /// Lookup and password verification succeeded; tokens are owed to this
    /// subject.
    Authenticated { subject_id: u64 },
    Failed { failure: LoginFailure },
}

/// Where the registration machine stops before token issuance.
pub enum RegistrationOutcome {
    /// The record was created; tokens are owed to this subject.
    Created { subject_id: u64 },
    Failed { failure: RegistrationFailure },
}

/// Maps the store's constraint-violation signal on insert to the same
/// conflict outcome the advisory pre-check would have produced, so a
/// duplicate that slips in between check and insert still surfaces as a
/// conflict and never as a bare `Unknown`.
pub fn registration_conflict_outcome(e: &StoreError) -> (r: RegistrationFailure)
    ensures
        e is DuplicateLogin ==> r == RegistrationFailure::AlreadyRegisteredByLogin,
        e is DuplicateMail ==> r == RegistrationFailure::AlreadyRegisteredByEmail,
        e is IdSpaceExhausted ==> r == RegistrationFailure::Unknown,
{
    match e {
        StoreError::DuplicateLogin => RegistrationFailure::AlreadyRegisteredByLogin,
        StoreError::DuplicateMail => RegistrationFailure::AlreadyRegisteredByEmail,
        StoreError::IdSpaceExhausted => RegistrationFailure::Unknown,
    }
}

/// The last transition of the login machine: a token pair becomes the
/// successful result, a signing failure is collapsed into `Unknown`.
pub fn finish_login(issue_result: Result<TokenPair, TokenError>) -> (r: Result<
    TokenPair,
    LoginFailure,
>)
    ensures
        issue_result matches Ok(p) ==> r == Ok::<TokenPair, LoginFailure>(p),
        issue_result is Err ==> r == Err::<TokenPair, LoginFailure>(LoginFailure::Unknown),
{
    match issue_result {
        Ok(pair) => Ok(pair),
        Err(_) => Err(LoginFailure::Unknown),
    }
}

/// The last transition of the registration machine: a token pair becomes the
/// successful result, a signing failure is collapsed into `Unknown`.
pub fn finish_registration(issue_result: Result<TokenPair, TokenError>) -> (r: Result<
    TokenPair,
    RegistrationFailure,
>)
    ensures
        issue_result matches Ok(p) ==> r == Ok::<TokenPair, RegistrationFailure>(p),
        issue_result is Err ==> r == Err::<TokenPair, RegistrationFailure>(
            RegistrationFailure::Unknown,
        ),
{
    match issue_result {
        Ok(pair) => Ok(pair),
        Err(_) => Err(RegistrationFailure::Unknown),
    }
}

/// Orchestrates the credential store and the token issuer.
pub struct AuthenticationService {
    pub users: CredentialStore,
    pub issuer: TokenIssuer,
}

impl AuthenticationService {
    pub fn new(users: CredentialStore, issuer: TokenIssuer) -> (r: Self)
        ensures
            r.users == users,
            r.issuer == issuer,
    {
        AuthenticationService { users, issuer }
    }

    /// The login machine up to token issuance: lookup by login, then
    /// password verification. An unknown login and a wrong password are
    /// deliberately distinct failures; note that the distinction lets a
    /// caller probe whether an account exists, an open product question.
    pub fn login(&self, login_request: &LoginRequest) -> (d: LoginOutcome)
        requires
            self.users.wf(),
        ensures
            !login_taken(self.users@, login_request.login@) ==> d == (LoginOutcome::Failed {
                failure: LoginFailure::WrongLogin,
            }),
            login_taken(self.users@, login_request.login@) && bcrypt_verifies(
                login_request.password@,
                user_by_login(self.users@, login_request.login@).password_hash,
            ) ==> d == (LoginOutcome::Authenticated {
                subject_id: user_by_login(self.users@, login_request.login@).id,
            }),
            login_taken(self.users@, login_request.login@) && !bcrypt_verifies(
                login_request.password@,
                user_by_login(self.users@, login_request.login@).password_hash,
            ) ==> d == (LoginOutcome::Failed { failure: LoginFailure::WrongPassword }),
    {
        match self.users.find_user_by("login", login_request.login.as_str()) {
            None => LoginOutcome::Failed { failure: LoginFailure::WrongLogin },
            Some(user) => {
                match verify_password(
                    login_request.password.as_str(),
                    user.password_hash.as_str(),
                ) {
                    Ok(true) => LoginOutcome::Authenticated { subject_id: user.id },
                    Ok(false) => LoginOutcome::Failed { failure: LoginFailure::WrongPassword },
                    Err(_) => LoginOutcome::Failed { failure: LoginFailure::WrongPassword },
                }
            },
        }
    }

    /// The registration machine up to token issuance: the advisory
    /// uniqueness pre-check (mail first), password hashing, then the insert,
    /// whose own constraint violation — the race with a concurrent
    /// registration — is mapped back to the same conflict outcomes.
    pub fn registration(&mut self, registration_request: &RegistrationRequest) -> (d:
        RegistrationOutcome)
        requires
            old(self).users.wf(),
        ensures
            final(self).users.wf(),
            final(self).issuer == old(self).issuer,
            mail_taken(old(self).users@, registration_request.mail@) || login_taken(
                old(self).users@,
                registration_request.login@,
            ) ==> !(d matches RegistrationOutcome::Created { .. }) && *final(self) == *old(self),
            mail_taken(old(self).users@, registration_request.mail@) ==> d
                == (RegistrationOutcome::Failed {
                failure: RegistrationFailure::AlreadyRegisteredByEmail,
            }) && *final(self) == *old(self),
            !mail_taken(old(self).users@, registration_request.mail@) && login_taken(
                old(self).users@,
                registration_request.login@,
            ) ==> d == (RegistrationOutcome::Failed {
                failure: RegistrationFailure::AlreadyRegisteredByLogin,
            }) && *final(self) == *old(self),
            !mail_taken(old(self).users@, registration_request.mail@) && !login_taken(
                old(self).users@,
                registration_request.login@,
            ) ==> match d {
                RegistrationOutcome::Created { subject_id } => {
                    &&& subject_id == old(self).users.next_id
                    &&& final(self).users.next_id == old(self).users.next_id + 1
                    &&& exists|h: Seq<char>|
                        #[trigger] bcrypt_verifies(registration_request.password@, h)
                            && final(self).users@ == old(self).users@.push(
                            UserView {
                                id: subject_id,
                                login: registration_request.login@,
                                mail: registration_request.mail@,
                                password_hash: h,
                                first_name: registration_request.first_name@,
                                last_name: registration_request.last_name@,
                            },
                        )
                },
                RegistrationOutcome::Failed { failure } => {
                    &&& (failure == RegistrationFailure::WrongPassword || (failure
                        == RegistrationFailure::Unknown && old(self).users.next_id == u64::MAX))
                    &&& *final(self) == *old(self)
                },
            },
    {
        match self.users.classify_by_login_and_mail(
            registration_request.mail.as_str(),
            registration_request.login.as_str(),
        ) {
            FindUserBy::UserFoundByEmail => RegistrationOutcome::Failed {
                failure: RegistrationFailure::AlreadyRegisteredByEmail,
            },
            FindUserBy::UserFoundByLogin => RegistrationOutcome::Failed {
                failure: RegistrationFailure::AlreadyRegisteredByLogin,
            },
            FindUserBy::UserNotFound => {
                match hash_text(registration_request.password.as_str(), HASH_COST) {
                    Err(_) => RegistrationOutcome::Failed {
                        failure: RegistrationFailure::WrongPassword,
                    },
                    Ok(hash_password) => {
                        let ghost h = hash_password@;
                        match self.users.create_user(
                            registration_request.login.clone(),
                            hash_password,
                            registration_request.mail.clone(),
                            registration_request.first_name.clone(),
                            registration_request.last_name.clone(),
                        ) {
                            Ok(user) => {
                                proof {
                                    assert(bcrypt_verifies(registration_request.password@, h));
                                }
                                RegistrationOutcome::Created { subject_id: user.id }
                            },
                            Err(e) => RegistrationOutcome::Failed {
                                failure: registration_conflict_outcome(&e),
                            },
                        }
                    },
                }
            },
        }
    }

    /// Replaces the authenticated user's profile fields; the stored password
    /// hash stays byte-identical to what it was before the edit.
    pub fn edit_user(&mut self, edit_model: &EditUserRequest, user: &User) -> (r: Result<
        (),
        StoreError,
    >)
        requires
            old(self).users.wf(),
        ensures
            final(self).users.wf(),
            final(self).issuer == old(self).issuer,
            final(self).users.next_id == old(self).users.next_id,
            !id_present(old(self).users@, user.id) ==> r == Ok::<(), StoreError>(()) && *final(self)
                == *old(self),
            id_present(old(self).users@, user.id) && mail_taken_by_other(
                old(self).users@,
                edit_model.mail@,
                user.id,
            ) ==> r == Err::<(), StoreError>(StoreError::DuplicateMail) && *final(self) == *old(
                self,
            ),
            id_present(old(self).users@, user.id) && !mail_taken_by_other(
                old(self).users@,
                edit_model.mail@,
                user.id,
            ) && login_taken_by_other(old(self).users@, edit_model.login@, user.id) ==> r == Err::<
                (),
                StoreError,
            >(StoreError::DuplicateLogin) && *final(self) == *old(self),
            id_present(old(self).users@, user.id) && !mail_taken_by_other(
                old(self).users@,
                edit_model.mail@,
                user.id,
            ) && !login_taken_by_other(old(self).users@, edit_model.login@, user.id) ==> r == Ok::<
                (),
                StoreError,
            >(()) && final(self).users@ == old(self).users@.update(
                index_of_id(old(self).users@, user.id),
                UserView {
                    id: user.id,
                    login: edit_model.login@,
                    mail: edit_model.mail@,
                    password_hash: user_by_id(old(self).users@, user.id).password_hash,
                    first_name: edit_model.first_name@,
                    last_name: edit_model.last_name@,
                },
            ),
            id_present(old(self).users@, user.id) && r is Ok ==> id_present(
                final(self).users@,
                user.id,
            ) && user_by_id(final(self).users@, user.id).password_hash == user_by_id(
                old(self).users@,
                user.id,
            ).password_hash,
    {
        let r = self.users.replace_user(user.id, edit_model);
        proof {
            let s0 = old(self).users@;
            let s1 = self.users@;
            if id_present(s0, user.id) && r is Ok {
                if !mail_taken_by_other(s0, edit_model.mail@, user.id) && !login_taken_by_other(
                    s0,
                    edit_model.login@,
                    user.id,
                ) {
                    let i = index_of_id(s0, user.id);
                    crate::store::lemma_user_by_id(s0, i, user.id);
                    assert(s1[i].id == user.id);
                    crate::store::lemma_user_by_id(s1, i, user.id);
                } else {
                    assert(s1 == s0);
                }
            }
        }
        r
    }
}

} // verus!
