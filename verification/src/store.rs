//! The credential store: the collection of user records together with the
//! uniqueness constraint on logins and mails that the backing store enforces
//! through its unique indexes. The store here is the verified model of that
//! collection; it is the single arbiter of uniqueness, so a duplicate that
//! slips past any advisory pre-check is still rejected at insertion.

use vstd::prelude::*;

use crate::str_eq;
use crate::user::{EditUserRequest, User, UserView};

verus! {

/// A failure of the backing record collection.
pub enum StoreError {
    /// The unique index on `login` rejected the write.
    DuplicateLogin,
    /// The unique index on `mail` rejected the write.
    DuplicateMail,
    /// No fresh record identity can be generated any more.
    IdSpaceExhausted,
}

/// The outcome of the combined login-and-mail uniqueness check. The mail
/// lookup takes precedence: when both collide, the mail conflict is reported.
pub enum FindUserBy {
    UserNotFound,
    UserFoundByLogin,
    UserFoundByEmail,
}

/// Some record in `s` has this login.
pub open spec fn login_taken(s: Seq<UserView>, login: Seq<char>) -> bool {
    exists|i: int| 0 <= i < s.len() && (#[trigger] s[i]).login == login
}

/// Some record in `s` has this mail.
pub open spec fn mail_taken(s: Seq<UserView>, mail: Seq<char>) -> bool {
    exists|i: int| 0 <= i < s.len() && (#[trigger] s[i]).mail == mail
}

/// Some record in `s` has this id.
pub open spec fn id_present(s: Seq<UserView>, id: u64) -> bool {
    exists|i: int| 0 <= i < s.len() && (#[trigger] s[i]).id == id
}

/// Some record other than the one with id `id` has this login.
pub open spec fn login_taken_by_other(s: Seq<UserView>, login: Seq<char>, id: u64) -> bool {
    exists|i: int| 0 <= i < s.len() && (#[trigger] s[i]).login == login && s[i].id != id
}

/// Some record other than the one with id `id` has this mail.
pub open spec fn mail_taken_by_other(s: Seq<UserView>, mail: Seq<char>, id: u64) -> bool {
    exists|i: int| 0 <= i < s.len() && (#[trigger] s[i]).mail == mail && s[i].id != id
}

/// The index of the record with this login (meaningful only when
/// `login_taken` holds; unique under `unique_users`).
pub open spec fn index_of_login(s: Seq<UserView>, login: Seq<char>) -> int {
    choose|i: int| 0 <= i < s.len() && (#[trigger] s[i]).login == login
}

/// The index of the record with this id (meaningful only when `id_present`
/// holds; unique under `unique_users`).
pub open spec fn index_of_id(s: Seq<UserView>, id: u64) -> int {
    choose|i: int| 0 <= i < s.len() && (#[trigger] s[i]).id == id
}

/// The record with this login.
pub open spec fn user_by_login(s: Seq<UserView>, login: Seq<char>) -> UserView {
    s[index_of_login(s, login)]
}

/// The record with this id.
pub open spec fn user_by_id(s: Seq<UserView>, id: u64) -> UserView {
    s[index_of_id(s, id)]
}

/// The uniqueness constraint of the user collection: no two records share an
/// id, a login, or a mail.
pub open spec fn unique_users(s: Seq<UserView>) -> bool {
    forall|i: int, j: int| #![trigger s[i], s[j]]
        0 <= i < j < s.len() ==> s[i].id != s[j].id && s[i].login != s[j].login && s[i].mail
            != s[j].mail
}

/// Two records of `s` with the same login sit at the same index, so the one
/// `user_by_login` picks is the only one.
pub proof fn lemma_user_by_login(s: Seq<UserView>, i: int, login: Seq<char>)
    requires
        unique_users(s),
        0 <= i < s.len(),
        s[i].login == login,
    ensures
        login_taken(s, login),
        index_of_login(s, login) == i,
        user_by_login(s, login) == s[i],
{
    assert(login_taken(s, login));
    let j = index_of_login(s, login);
    if i != j {
        assert(s[i].login != s[j].login);
    }
}

/// Two records of `s` with the same id sit at the same index, so the one
/// `user_by_id` picks is the only one.
pub proof fn lemma_user_by_id(s: Seq<UserView>, i: int, id: u64)
    requires
        unique_users(s),
        0 <= i < s.len(),
        s[i].id == id,
    ensures
        id_present(s, id),
        index_of_id(s, id) == i,
        user_by_id(s, id) == s[i],
{
    assert(id_present(s, id));
    let j = index_of_id(s, id);
    if i != j {
        assert(s[i].id != s[j].id);
    }
}

/// The user record collection. `next_id` is the generator of fresh record
/// identities, kept strictly above every stored id.
pub struct CredentialStore {
    pub users: Vec<User>,
    pub next_id: u64,
}

impl View for CredentialStore {
    type V = Seq<UserView>;

    open spec fn view(&self) -> Seq<UserView> {
        self.users@.map_values(|u: User| u@)
    }
}

impl CredentialStore {
    /// The store's invariant: the uniqueness constraint holds and every
    /// stored id is older than the next one to be generated.
    pub open spec fn wf(self) -> bool {
        &&& unique_users(self@)
        &&& forall|i: int| 0 <= i < self@.len() ==> (#[trigger] self@[i]).id < self.next_id
    }

    pub fn new() -> (r: Self)
        ensures
            r.wf(),
            r@ == Seq::<UserView>::empty(),
            r.next_id == 0,
    {
        CredentialStore { users: Vec::new(), next_id: 0 }
    }

    /// Index of the record with this login, if any.
    fn position_by_login(&self, login: &str) -> (r: Option<usize>)
        ensures
            r matches Some(i) ==> i < self@.len() && self@[i as int].login == login@,
            r is None ==> !login_taken(self@, login@),
    {
        let n = self.users.len();
        let mut k: usize = 0;
        while k < n
            invariant
                n == self@.len(),
                k <= n,
                forall|j: int| 0 <= j < k ==> (#[trigger] self@[j]).login != login@,
            decreases n - k,
        {
            if str_eq(self.users[k].login.as_str(), login) {
                return Some(k);
            }
            k = k + 1;
        }
        None
    }

    /// Index of the record with this mail, if any.
    fn position_by_mail(&self, mail: &str) -> (r: Option<usize>)
        ensures
            r matches Some(i) ==> i < self@.len() && self@[i as int].mail == mail@,
            r is None ==> !mail_taken(self@, mail@),
    {
        let n = self.users.len();
        let mut k: usize = 0;
        while k < n
            invariant
                n == self@.len(),
                k <= n,
                forall|j: int| 0 <= j < k ==> (#[trigger] self@[j]).mail != mail@,
            decreases n - k,
        {
            if str_eq(self.users[k].mail.as_str(), mail) {
                return Some(k);
            }
            k = k + 1;
        }
        None
    }

    /// Index of the record with this id, if any.
    fn position_by_id(&self, id: u64) -> (r: Option<usize>)
        ensures
            r matches Some(i) ==> i < self@.len() && self@[i as int].id == id,
            r is None ==> !id_present(self@, id),
    {
        let n = self.users.len();
        let mut k: usize = 0;
        while k < n
            invariant
                n == self@.len(),
                k <= n,
                forall|j: int| 0 <= j < k ==> (#[trigger] self@[j]).id != id,
            decreases n - k,
        {
            if self.users[k].id == id {
                return Some(k);
            }
            k = k + 1;
        }
        None
    }

    /// Generic single-field exact-match lookup, used for both the `login`
    /// and the `mail` lookup. Returns absence, not an error, on no match.
    pub fn find_user_by(&self, find_by: &str, data_find_in: &str) -> (r: Option<User>)
        requires
            self.wf(),
            find_by@ == "login"@ || find_by@ == "mail"@,
        ensures
            find_by@ == "login"@ ==> {
                &&& r is Some <==> login_taken(self@, data_find_in@)
                &&& (r matches Some(u) ==> u@ == user_by_login(self@, data_find_in@))
            },
            find_by@ == "mail"@ ==> {
                &&& r is Some <==> mail_taken(self@, data_find_in@)
                &&& (r matches Some(u) ==> u@ == user_by_mail(self@, data_find_in@))
            },
    {
        proof {
            reveal_strlit("login");
            reveal_strlit("mail");
            assert("login"@.len() == 5);
            assert("mail"@.len() == 4);
            assert("login"@ != "mail"@);
        }
        if str_eq(find_by, "login") {
            match self.position_by_login(data_find_in) {
                Some(i) => {
                    proof {
                        lemma_user_by_login(self@, i as int, data_find_in@);
                    }
                    Some(self.users[i].clone())
                },
                None => None,
            }
        } else {
            match self.position_by_mail(data_find_in) {
                Some(i) => {
                    proof {
                        lemma_user_by_mail(self@, i as int, data_find_in@);
                    }
                    Some(self.users[i].clone())
                },
                None => None,
            }
        }
    }

    /// Lookup by the store-generated identity.
    pub fn find_user_by_id(&self, data_find_in: u64) -> (r: Option<User>)
        requires
            self.wf(),
        ensures
            r is Some <==> id_present(self@, data_find_in),
            r matches Some(u) ==> u@ == user_by_id(self@, data_find_in),
    {
        match self.position_by_id(data_find_in) {
            Some(i) => {
                proof {
                    lemma_user_by_id(self@, i as int, data_find_in);
                }
                Some(self.users[i].clone())
            },
            None => None,
        }
    }

    /// The combined uniqueness check: two independent lookups, mail first.
    /// When both the mail and the login collide, the mail conflict wins.
    pub fn classify_by_login_and_mail(&self, mail: &str, login: &str) -> (r: FindUserBy)
        requires
            self.wf(),
        ensures
            mail_taken(self@, mail@) ==> r == FindUserBy::UserFoundByEmail,
            !mail_taken(self@, mail@) && login_taken(self@, login@) ==> r
                == FindUserBy::UserFoundByLogin,
            !mail_taken(self@, mail@) && !login_taken(self@, login@) ==> r
                == FindUserBy::UserNotFound,
    {
        if self.find_user_by("mail", mail).is_some() {
            FindUserBy::UserFoundByEmail
        } else if self.find_user_by("login", login).is_some() {
            FindUserBy::UserFoundByLogin
        } else {
            FindUserBy::UserNotFound
        }
    }

    /// Persists a new record under a freshly generated identity. This is the
    /// unique index at work: a colliding mail or login is rejected here, with
    /// the mail conflict reported when both collide.
    pub fn create_user(
        &mut self,
        login: String,
        password_hash: String,
        mail: String,
        first_name: String,
        last_name: String,
    ) -> (r: Result<User, StoreError>)
        requires
            old(self).wf(),
        ensures
            final(self).wf(),
            mail_taken(old(self)@, mail@) ==> r == Err::<User, StoreError>(
                StoreError::DuplicateMail,
            ) && *final(self) == *old(self),
            !mail_taken(old(self)@, mail@) && login_taken(old(self)@, login@) ==> r == Err::<
                User,
                StoreError,
            >(StoreError::DuplicateLogin) && *final(self) == *old(self),
            !mail_taken(old(self)@, mail@) && !login_taken(old(self)@, login@) && old(self).next_id
                == u64::MAX ==> r == Err::<User, StoreError>(StoreError::IdSpaceExhausted)
                && *final(self) == *old(self),
            !mail_taken(old(self)@, mail@) && !login_taken(old(self)@, login@) && old(self).next_id
                < u64::MAX ==> {
                &&& r matches Ok(u)
                &&& r matches Ok(u) ==> u@ == (UserView {
                    id: old(self).next_id,
                    login: login@,
                    mail: mail@,
                    password_hash: password_hash@,
                    first_name: first_name@,
                    last_name: last_name@,
                }) && final(self)@ == old(self)@.push(u@) && final(self).next_id == old(self).next_id
                    + 1
            },
    {
        if self.position_by_mail(mail.as_str()).is_some() {
            return Err(StoreError::DuplicateMail);
        }
        if self.position_by_login(login.as_str()).is_some() {
            return Err(StoreError::DuplicateLogin);
        }
        if self.next_id == u64::MAX {
            return Err(StoreError::IdSpaceExhausted);
        }
        let id = self.next_id;
        let user = User { id, login, mail, password_hash, first_name, last_name };
        let result = user.clone();
        self.users.push(user);
        self.next_id = id + 1;
        proof {
            assert(self@ =~= old(self)@.push(result@));
        }
        Ok(result)
    }

    /// Full replace of the record with this id: the profile fields come from
    /// the edit, the password hash is copied across untouched, so no caller
    /// can blank or guess a new hash through an edit. A replace that would
    /// violate the uniqueness constraint is rejected; a missing id is a
    /// silent success, as the backing store's replace of nothing would be.
    pub fn replace_user(&mut self, id: u64, edit: &EditUserRequest) -> (r: Result<
        (),
        StoreError,
    >)
        requires
            old(self).wf(),
        ensures
            final(self).wf(),
            final(self).next_id == old(self).next_id,
            !id_present(old(self)@, id) ==> r == Ok::<(), StoreError>(()) && *final(self) == *old(
                self,
            ),
            id_present(old(self)@, id) && mail_taken_by_other(old(self)@, edit.mail@, id) ==> r
                == Err::<(), StoreError>(StoreError::DuplicateMail) && *final(self) == *old(self),
            id_present(old(self)@, id) && !mail_taken_by_other(old(self)@, edit.mail@, id)
                && login_taken_by_other(old(self)@, edit.login@, id) ==> r == Err::<(), StoreError>(
                StoreError::DuplicateLogin,
            ) && *final(self) == *old(self),
            id_present(old(self)@, id) && !mail_taken_by_other(old(self)@, edit.mail@, id)
                && !login_taken_by_other(old(self)@, edit.login@, id) ==> r == Ok::<(), StoreError>(
                (),
            ) && final(self)@ == old(self)@.update(
                index_of_id(old(self)@, id),
                UserView {
                    id,
                    login: edit.login@,
                    mail: edit.mail@,
                    password_hash: user_by_id(old(self)@, id).password_hash,
                    first_name: edit.first_name@,
                    last_name: edit.last_name@,
                },
            ),
    {
        let i = match self.position_by_id(id) {
            Some(i) => i,
            None => {
                return Ok(());
            },
        };
        proof {
            lemma_user_by_id(self@, i as int, id);
        }
        match self.position_by_mail(edit.mail.as_str()) {
            Some(j) => {
                if self.users[j].id != id {
                    return Err(StoreError::DuplicateMail);
                }
                proof {
                    lemma_no_other_mail(self@, j as int, edit.mail@, id);
                }
            },
            None => {
                proof {
                    assert(!mail_taken_by_other(self@, edit.mail@, id)) by {
                        assert forall|k: int|
                            0 <= k < self@.len() implies !((#[trigger] self@[k]).mail == edit.mail@
                            && self@[k].id != id) by {
                            assert(!mail_taken(self@, edit.mail@));
                        }
                    }
                }
            },
        }
        match self.position_by_login(edit.login.as_str()) {
            Some(j) => {
                if self.users[j].id != id {
                    return Err(StoreError::DuplicateLogin);
                }
                proof {
                    lemma_no_other_login(self@, j as int, edit.login@, id);
                }
            },
            None => {
                proof {
                    assert(!login_taken_by_other(self@, edit.login@, id)) by {
                        assert forall|k: int|
                            0 <= k < self@.len() implies !((#[trigger] self@[k]).login
                            == edit.login@ && self@[k].id != id) by {
                            assert(!login_taken(self@, edit.login@));
                        }
                    }
                }
            },
        }
        let replacement = User {
            id,
            login: edit.login.clone(),
            mail: edit.mail.clone(),
            password_hash: self.users[i].password_hash.clone(),
            first_name: edit.first_name.clone(),
            last_name: edit.last_name.clone(),
        };
        let ghost v = replacement@;
        self.users[i] = replacement;
        proof {
            assert(self@ =~= old(self)@.update(i as int, v));
            lemma_update_keeps_wf(*old(self), *self, i as int, v, id);
        }
        Ok(())
    }

    /// Removes the record with this login; silently succeeds when nothing
    /// matches, so a caller that needs existence confirmation must check
    /// first.
    pub fn delete_user(&mut self, login: &str) -> (r: Result<(), StoreError>)
        requires
            old(self).wf(),
        ensures
            final(self).wf(),
            final(self).next_id == old(self).next_id,
            r == Ok::<(), StoreError>(()),
            !login_taken(old(self)@, login@) ==> *final(self) == *old(self),
            login_taken(old(self)@, login@) ==> final(self)@ == old(self)@.remove(
                index_of_login(old(self)@, login@),
            ),
            !login_taken(final(self)@, login@),
    {
        match self.position_by_login(login) {
            Some(i) => {
                proof {
                    lemma_user_by_login(self@, i as int, login@);
                }
                self.users.remove(i);
                proof {
                    assert(self@ =~= old(self)@.remove(i as int));
                    lemma_remove_keeps_wf(*old(self), *self, i as int);
                    assert(!login_taken(self@, login@)) by {
                        assert forall|k: int|
                            0 <= k < self@.len() implies (#[trigger] self@[k]).login != login@ by {
                            if k < i {
                                assert(self@[k] == old(self)@[k]);
                                assert(old(self)@[k].login != old(self)@[i as int].login);
                            } else {
                                assert(self@[k] == old(self)@[k + 1]);
                                assert(old(self)@[i as int].login != old(self)@[k + 1].login);
                            }
                        }
                    }
                }
                Ok(())
            },
            None => Ok(()),
        }
    }
}

/// The record with this mail (the counterpart of `user_by_login`).
pub open spec fn user_by_mail(s: Seq<UserView>, mail: Seq<char>) -> UserView {
    s[choose|i: int| 0 <= i < s.len() && (#[trigger] s[i]).mail == mail]
}

/// Two records of `s` with the same mail sit at the same index.
pub proof fn lemma_user_by_mail(s: Seq<UserView>, i: int, mail: Seq<char>)
    requires
        unique_users(s),
        0 <= i < s.len(),
        s[i].mail == mail,
    ensures
        mail_taken(s, mail),
        user_by_mail(s, mail) == s[i],
{
    assert(mail_taken(s, mail));
    let j = choose|k: int| 0 <= k < s.len() && (#[trigger] s[k]).mail == mail;
    if i != j {
        assert(s[i].mail != s[j].mail);
    }
}

/// When the unique record holding `mail` is the record `id` itself, no other
/// record holds that mail.
proof fn lemma_no_other_mail(s: Seq<UserView>, j: int, mail: Seq<char>, id: u64)
    requires
        unique_users(s),
        0 <= j < s.len(),
        s[j].mail == mail,
        s[j].id == id,
    ensures
        !mail_taken_by_other(s, mail, id),
{
    assert forall|k: int|
        0 <= k < s.len() implies !((#[trigger] s[k]).mail == mail && s[k].id != id) by {
        if k != j && s[k].mail == mail {
            assert(s[k].mail != s[j].mail);
        }
    }
}

/// When the unique record holding `login` is the record `id` itself, no
/// other record holds that login.
proof fn lemma_no_other_login(s: Seq<UserView>, j: int, login: Seq<char>, id: u64)
    requires
        unique_users(s),
        0 <= j < s.len(),
        s[j].login == login,
        s[j].id == id,
    ensures
        !login_taken_by_other(s, login, id),
{
    assert forall|k: int|
        0 <= k < s.len() implies !((#[trigger] s[k]).login == login && s[k].id != id) by {
        if k != j && s[k].login == login {
            assert(s[k].login != s[j].login);
        }
    }
}

/// Removing a record preserves the store invariant.
proof fn lemma_remove_keeps_wf(pre: CredentialStore, post: CredentialStore, i: int)
    requires
        pre.wf(),
        0 <= i < pre@.len(),
        post@ == pre@.remove(i),
        post.next_id == pre.next_id,
    ensures
        post.wf(),
{
    assert forall|a: int, b: int| #![trigger post@[a], post@[b]]
        0 <= a < b < post@.len() implies post@[a].id != post@[b].id && post@[a].login
        != post@[b].login && post@[a].mail != post@[b].mail by {
        let a0 = if a < i { a } else { a + 1 };
        let b0 = if b < i { b } else { b + 1 };
        assert(post@[a] == pre@[a0]);
        assert(post@[b] == pre@[b0]);
    }
    assert forall|a: int| 0 <= a < post@.len() implies (#[trigger] post@[a]).id
        < post.next_id by {
        let a0 = if a < i { a } else { a + 1 };
        assert(post@[a] == pre@[a0]);
    }
}

/// Replacing the record at `i` with a record of the same id whose login and
/// mail no other record holds preserves the store invariant.
proof fn lemma_update_keeps_wf(
    pre: CredentialStore,
    post: CredentialStore,
    i: int,
    v: UserView,
    id: u64,
)
    requires
        pre.wf(),
        0 <= i < pre@.len(),
        pre@[i].id == id,
        v.id == id,
        !login_taken_by_other(pre@, v.login, id),
        !mail_taken_by_other(pre@, v.mail, id),
        post@ == pre@.update(i, v),
        post.next_id == pre.next_id,
    ensures
        post.wf(),
{
    assert forall|a: int, b: int| #![trigger post@[a], post@[b]]
        0 <= a < b < post@.len() implies post@[a].id != post@[b].id && post@[a].login
        != post@[b].login && post@[a].mail != post@[b].mail by {
        if a != i && b != i {
            assert(post@[a] == pre@[a]);
            assert(post@[b] == pre@[b]);
        } else if a == i {
            assert(post@[b] == pre@[b]);
            assert(pre@[b].id != pre@[i].id);
            if post@[b].login == v.login {
                assert(login_taken_by_other(pre@, v.login, id));
            }
            if post@[b].mail == v.mail {
                assert(mail_taken_by_other(pre@, v.mail, id));
            }
        } else {
            assert(post@[a] == pre@[a]);
            assert(pre@[a].id != pre@[i].id);
            if post@[a].login == v.login {
                assert(login_taken_by_other(pre@, v.login, id));
            }
            if post@[a].mail == v.mail {
                assert(mail_taken_by_other(pre@, v.mail, id));
            }
        }
    }
    assert forall|a: int| 0 <= a < post@.len() implies (#[trigger] post@[a]).id
        < post.next_id by {
        if a != i {
            assert(post@[a] == pre@[a]);
        } else {
            assert(pre@[i].id < pre.next_id);
        }
    }
}

} // verus!
