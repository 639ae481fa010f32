//! The user identity record and the request payloads that operate on it.

use vstd::prelude::*;

verus! {

/// A stored identity record. `id` is generated by the store; `login` and
/// `mail` are each unique across all users; `password_hash` never holds a
/// plaintext password and is preserved verbatim across profile edits.
pub struct User {
    pub id: u64,
    pub login: String,
    pub mail: String,
    pub password_hash: String,
    pub first_name: String,
    pub last_name: String,
}

/// The mathematical value of a [`User`]: the id together with the character
/// sequences of every text field.
pub struct UserView {
    pub id: u64,
    pub login: Seq<char>,
    pub mail: Seq<char>,
    pub password_hash: Seq<char>,
    pub first_name: Seq<char>,
    pub last_name: Seq<char>,
}

impl View for User {
    type V = UserView;

    open spec fn view(&self) -> UserView {
        UserView {
            id: self.id,
            login: self.login@,
            mail: self.mail@,
            password_hash: self.password_hash@,
            first_name: self.first_name@,
            last_name: self.last_name@,
        }
    }
}

impl Clone for User {
    fn clone(&self) -> (r: Self)
        ensures
            r == self,
    {
        User {
            id: self.id,
            login: self.login.clone(),
            mail: self.mail.clone(),
            password_hash: self.password_hash.clone(),
            first_name: self.first_name.clone(),
            last_name: self.last_name.clone(),
        }
    }
}

/// Credentials presented when logging in.
pub struct LoginRequest {
    pub login: String,
    pub password: String,
}

/// The fields a new account is created from.
pub struct RegistrationRequest {
    pub login: String,
    pub password: String,
    pub mail: String,
    pub first_name: String,
    pub last_name: String,
}

/// A profile edit: every identity field except the password.
pub struct EditUserRequest {
    pub login: String,
    pub mail: String,
    pub first_name: String,
    pub last_name: String,
}

} // verus!
