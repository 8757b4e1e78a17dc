//! Users and the store that holds their credentials.
//!
//! The store is a table of users in the order of their registration. No two
//! users in it share an identifier, and no two share an email. A user's
//! password is kept as an Argon2 credential and in no other form.

use crate::api_error::{
    email_taken, hashing_failed, id_taken, user_not_found, verification_failed, ApiError,
};
use crate::clock::{now, Timestamp};
use crate::ident::{fresh_id, Id};
use crate::password::{hash_password, is_credential_of, verdict, verify_password};
use crate::user::table::{
    email_held_by_other, find, find_by_email, has_email, has_user, index_of, index_of_email,
    lemma_push_keeps_unique, lemma_remove_keeps_unique, lemma_update_keeps_unique, registered,
    revised, unique_emails, unique_ids, with_revision, without, UserMessageView, UserPatchView,
    UserView,
};
use vstd::prelude::*;

verus! {

/// An email and a raw password, as a client sends them to register or to
/// sign in.
#[derive(Debug, PartialEq, Eq)]
pub struct UserMessage {
    pub email: String,
    pub password: String,
}

impl View for UserMessage {
    type V = UserMessageView;

    open spec fn view(&self) -> UserMessageView {
        UserMessageView { email: self.email@, password: self.password@ }
    }
}

/// A partial update of a user: a field that is absent stays as it is. The
/// password in it is a raw one.
#[derive(Debug, PartialEq, Eq)]
pub struct UserPatch {
    pub email: Option<String>,
    pub password: Option<String>,
}

impl View for UserPatch {
    type V = UserPatchView;

    open spec fn view(&self) -> UserPatchView {
        UserPatchView { email: self.email.deep_view(), password: self.password.deep_view() }
    }
}

/// A user.
#[derive(Debug, PartialEq, Eq)]
pub struct User {
    id: Id,
    email: String,
    password: String,
    created_at: Timestamp,
    updated_at: Option<Timestamp>,
}

impl View for User {
    type V = UserView;

    closed spec fn view(&self) -> UserView {
        UserView {
            id: self.id,
            email: self.email@,
            password: self.password@,
            created_at: self.created_at,
            updated_at: self.updated_at,
        }
    }
}

/// The outward form of a user: all of it but the credential, which no
/// response carries.
#[derive(Debug, PartialEq, Eq)]
pub struct PublicUser {
    pub id: Id,
    pub email: String,
    pub created_at: Timestamp,
    pub updated_at: Option<Timestamp>,
}

/// The table of users.
pub struct UserStore {
    rows: Vec<User>,
}

impl View for UserStore {
    type V = Seq<UserView>;

    closed spec fn view(&self) -> Seq<UserView> {
        views(self.rows@)
    }
}

/// The rows of a sequence of users.
pub open spec fn views(users: Seq<User>) -> Seq<UserView> {
    users.map_values(|u: User| u@)
}

impl UserMessage {
    /// The message with this email and this raw password.
    pub fn new(email: String, password: String) -> (message: UserMessage)
        ensures
            message@ == (UserMessageView { email: email@, password: password@ }),
    {
        UserMessage { email, password }
    }

    /// The patch that sets both the email and the password to those of
    /// `self`.
    pub fn into_patch(self) -> (patch: UserPatch)
        ensures
            patch@ == (UserPatchView {
                email: Some(self@.email),
                password: Some(self@.password),
            }),
    {
        UserPatch { email: Some(self.email), password: Some(self.password) }
    }
}

impl UserPatch {
    /// The patch that replaces the fields given and leaves the others.
    pub fn new(email: Option<String>, password: Option<String>) -> (patch: UserPatch)
        ensures
            patch@ == (UserPatchView { email: email.deep_view(), password: password.deep_view() }),
    {
        UserPatch { email, password }
    }
}

impl Clone for User {
    fn clone(&self) -> (copy: User)
        ensures
            copy@ == self@,
    {
        User {
            id: self.id,
            email: self.email.clone(),
            password: self.password.clone(),
            created_at: self.created_at,
            updated_at: self.updated_at,
        }
    }
}

impl UserStore {
    /// The store's invariant: no two users share an identifier, and no two
    /// share an email.
    pub open spec fn wf(&self) -> bool {
        unique_ids(self@) && unique_emails(self@)
    }

    /// A store without users.
    pub fn new() -> (store: UserStore)
        ensures
            store.wf(),
            store@ == Seq::<UserView>::empty(),
    {
        let store = UserStore { rows: Vec::new() };
        assert(store@ =~= Seq::<UserView>::empty());
        store
    }

    /// The number of users.
    pub fn len(&self) -> (n: usize)
        ensures
            n == self@.len(),
    {
        self.rows.len()
    }

    /// The place of the user `id`, if the store has it.
    fn position(&self, id: Id) -> (place: Option<usize>)
        requires
            self.wf(),
        ensures
            match place {
                Some(k) => {
                    &&& has_user(self@, id)
                    &&& index_of(self@, id) == k
                    &&& k < self.rows.len()
                    &&& self.rows[k as int]@ == self@[k as int]
                },
                None => !has_user(self@, id),
            },
    {
        let mut k: usize = 0;
        while k < self.rows.len()
            invariant
                self.wf(),
                k <= self.rows.len(),
                self@.len() == self.rows.len(),
                forall|i: int| 0 <= i < k ==> (#[trigger] self@[i]).id != id,
            decreases self.rows.len() - k,
        {
            if self.rows[k].id == id {
                assert(self@[k as int].id == id);
                return Some(k);
            }
            k += 1;
        }
        None
    }

    /// The place of the user with the email `email`, if the store has one.
    fn position_of_email(&self, email: &String) -> (place: Option<usize>)
        requires
            self.wf(),
        ensures
            match place {
                Some(k) => {
                    &&& has_email(self@, email@)
                    &&& index_of_email(self@, email@) == k
                    &&& k < self.rows.len()
                    &&& self.rows[k as int]@ == self@[k as int]
                },
                None => !has_email(self@, email@),
            },
    {
        let mut k: usize = 0;
        while k < self.rows.len()
            invariant
                self.wf(),
                k <= self.rows.len(),
                self@.len() == self.rows.len(),
                forall|i: int| 0 <= i < k ==> (#[trigger] self@[i]).email != email@,
            decreases self.rows.len() - k,
        {
            if self.rows[k].email == *email {
                assert(self@[k as int].email == email@);
                return Some(k);
            }
            k += 1;
        }
        None
    }

    /// The place of the user `id`, if there is such a user and no other
    /// user holds the email that is asked for.
    fn place_for_update(&self, id: Id, email: &Option<String>) -> (r: Result<usize, ApiError>)
        requires
            self.wf(),
        ensures
            match r {
                Ok(k) => {
                    &&& has_user(self@, id)
                    &&& index_of(self@, id) == k
                    &&& k < self.rows.len()
                    &&& self.rows[k as int]@ == self@[k as int]
                    &&& !email_held_by_other(self@, id, email.deep_view())
                },
                Err(e) => if !has_user(self@, id) {
                    e@ == user_not_found()
                } else {
                    email_held_by_other(self@, id, email.deep_view()) && e@ == email_taken()
                },
            },
    {
        let k = match self.position(id) {
            Some(k) => k,
            None => {
                return Err(ApiError::user_not_found());
            },
        };
        let taken = match email {
            Some(wanted) => self.position_of_email(wanted),
            None => None,
        };
        match taken {
            Some(m) if m != k => {
                assert(self@[m as int].id != id);
                Err(ApiError::email_taken())
            },
            _ => Ok(k),
        }
    }

    /// Adds `user` at the end of the table, unless its email or, failing
    /// that, its identifier is taken.
    pub fn insert(&mut self, user: User) -> (r: Result<(), ApiError>)
        requires
            old(self).wf(),
        ensures
            final(self).wf(),
            match r {
                Ok(_) => {
                    &&& !has_email(old(self)@, user@.email)
                    &&& !has_user(old(self)@, user@.id)
                    &&& final(self)@ == old(self)@.push(user@)
                },
                Err(e) => {
                    &&& final(self)@ == old(self)@
                    &&& if has_email(old(self)@, user@.email) {
                        e@ == email_taken()
                    } else {
                        has_user(old(self)@, user@.id) && e@ == id_taken()
                    }
                },
            },
    {
        if self.position_of_email(&user.email).is_some() {
            return Err(ApiError::email_taken());
        }
        if self.position(user.id).is_some() {
            return Err(ApiError::id_taken());
        }
        let ghost before = self@;
        self.rows.push(user);
        proof {
            assert(self@ =~= before.push(user@));
            lemma_push_keeps_unique(before, user@);
        }
        Ok(())
    }
}

impl User {
    /// The identifier of the user.
    pub fn id(&self) -> (id: Id)
        ensures
            id == self@.id,
    {
        self.id
    }

    /// The email of the user.
    pub fn email(&self) -> (email: &String)
        ensures
            email@ == self@.email,
    {
        &self.email
    }

    /// The stored credential of the user.
    pub fn credential(&self) -> (credential: &String)
        ensures
            credential@ == self@.password,
    {
        &self.password
    }

    /// When the user registered.
    pub fn created_at(&self) -> (created_at: Timestamp)
        ensures
            created_at == self@.created_at,
    {
        self.created_at
    }

    /// When the user was last updated, if it ever was.
    pub fn updated_at(&self) -> (updated_at: Option<Timestamp>)
        ensures
            updated_at == self@.updated_at,
    {
        self.updated_at
    }

    /// The outward form of the user.
    pub fn public(&self) -> (out: PublicUser)
        ensures
            out.id == self@.id,
            out.email@ == self@.email,
            out.created_at == self@.created_at,
            out.updated_at == self@.updated_at,
    {
        PublicUser {
            id: self.id,
            email: self.email.clone(),
            created_at: self.created_at,
            updated_at: self.updated_at,
        }
    }

    /// A user with the given fields; `password` is the stored credential.
    pub fn new(
        id: Id,
        email: String,
        password: String,
        created_at: Timestamp,
        updated_at: Option<Timestamp>,
    ) -> (user: User)
        ensures
            user@ == (UserView {
                id,
                email: email@,
                password: password@,
                created_at,
                updated_at,
            }),
    {
        User { id, email, password, created_at, updated_at }
    }

    /// Registers a user under `email` with the credential `credential`,
    /// under the identifier `id` at the time `at`, at the end of the table.
    /// Fails with a conflict, and leaves the table as it is, exactly when
    /// the email or, failing that, the identifier is taken.
    pub fn create_with(
        store: &mut UserStore,
        email: String,
        credential: String,
        id: Id,
        at: Timestamp,
    ) -> (r: Result<User, ApiError>)
        requires
            old(store).wf(),
        ensures
            final(store).wf(),
            match r {
                Ok(user) => {
                    &&& !has_email(old(store)@, email@)
                    &&& !has_user(old(store)@, id)
                    &&& user@ == registered(email@, credential@, id, at)
                    &&& final(store)@ == old(store)@.push(user@)
                },
                Err(e) => {
                    &&& final(store)@ == old(store)@
                    &&& if has_email(old(store)@, email@) {
                        e@ == email_taken()
                    } else {
                        has_user(old(store)@, id) && e@ == id_taken()
                    }
                },
            },
    {
        let user = User { id, email, password: credential, created_at: at, updated_at: None };
        let copy = user.clone();
        match store.insert(user) {
            Ok(_) => Ok(copy),
            Err(e) => Err(e),
        }
    }

    /// Registers the user of `message` now, under a fresh random identifier:
    /// the raw password is hashed under a fresh salt, and only the
    /// credential is stored. Fails with a conflict whenever the email is
    /// taken. Otherwise the hasher may fail, or the identifier drawn may be
    /// taken. Every failure leaves the table as it is.
    pub fn create(store: &mut UserStore, message: UserMessage) -> (r: Result<User, ApiError>)
        requires
            old(store).wf(),
        ensures
            final(store).wf(),
            match r {
                Ok(user) => {
                    &&& !has_email(old(store)@, message@.email)
                    &&& !has_user(old(store)@, user@.id)
                    &&& user@.email == message@.email
                    &&& is_credential_of(user@.password, message@.password)
                    &&& user@.updated_at is None
                    &&& final(store)@ == old(store)@.push(user@)
                },
                Err(e) => {
                    &&& final(store)@ == old(store)@
                    &&& if has_email(old(store)@, message@.email) {
                        e@ == email_taken()
                    } else {
                        e@ == hashing_failed() || (old(store)@.len() > 0 && e@ == id_taken())
                    }
                },
            },
    {
        if store.position_of_email(&message.email).is_some() {
            return Err(ApiError::email_taken());
        }
        match hash_password(message.password.as_str()) {
            Ok(credential) => User::create_with(store, message.email, credential, fresh_id(), now()),
            Err(e) => Err(e),
        }
    }

    /// The user `id`.
    pub fn find(store: &UserStore, id: Id) -> (r: Result<User, ApiError>)
        requires
            store.wf(),
        ensures
            match r {
                Ok(user) => find(store@, id) == Some(user@),
                Err(e) => {
                    &&& find(store@, id) is None
                    &&& e@ == user_not_found()
                },
            },
    {
        match store.position(id) {
            Some(k) => Ok(store.rows[k].clone()),
            None => Err(ApiError::user_not_found()),
        }
    }

    /// The user registered under `email`.
    pub fn find_by_email(store: &UserStore, email: String) -> (r: Result<User, ApiError>)
        requires
            store.wf(),
        ensures
            match r {
                Ok(user) => find_by_email(store@, email@) == Some(user@),
                Err(e) => {
                    &&& find_by_email(store@, email@) is None
                    &&& e@ == user_not_found()
                },
            },
    {
        match store.position_of_email(&email) {
            Some(k) => Ok(store.rows[k].clone()),
            None => Err(ApiError::user_not_found()),
        }
    }

    /// Whether `password` is this user's password. A password that does not
    /// match is no failure: the answer is then `false`. Fails exactly where
    /// the stored credential has not the library's parameters, or the
    /// verifier cannot read it.
    pub fn verify_password(&self, password: &str) -> (r: Result<bool, ApiError>)
        ensures
            match r {
                Ok(matches) => verdict(self@.password, password@) == Some(matches),
                Err(e) => verdict(self@.password, password@) is None && e@ == verification_failed(),
            },
    {
        verify_password(self.password.as_str(), password)
    }

    /// Replaces the email and the credential of the user `id` by those
    /// given, at the time `at`; `updated_at` becomes `at` whether or not
    /// anything changed. Fails with not-found exactly when there is no such
    /// user, and else with a conflict exactly when another user holds the
    /// email asked for. Every failure leaves the table as it is.
    pub fn update_with(
        store: &mut UserStore,
        id: Id,
        email: Option<String>,
        credential: Option<String>,
        at: Timestamp,
    ) -> (r: Result<User, ApiError>)
        requires
            old(store).wf(),
        ensures
            final(store).wf(),
            match r {
                Ok(user) => {
                    &&& find(old(store)@, id) matches Some(before)
                    &&& !email_held_by_other(old(store)@, id, email.deep_view())
                    &&& user@ == revised(before, email.deep_view(), credential.deep_view(), at)
                    &&& final(store)@ == with_revision(
                        old(store)@,
                        id,
                        email.deep_view(),
                        credential.deep_view(),
                        at,
                    )
                },
                Err(e) => {
                    &&& final(store)@ == old(store)@
                    &&& if !has_user(old(store)@, id) {
                        e@ == user_not_found()
                    } else {
                        email_held_by_other(old(store)@, id, email.deep_view()) && e@
                            == email_taken()
                    }
                },
            },
    {
        let k = match store.place_for_update(id, &email) {
            Ok(k) => k,
            Err(e) => {
                return Err(e);
            },
        };
        let ghost before = store@;
        let row = &store.rows[k];
        let next = User {
            id: row.id,
            email: match email {
                Some(email) => email,
                None => row.email.clone(),
            },
            password: match credential {
                Some(credential) => credential,
                None => row.password.clone(),
            },
            created_at: row.created_at,
            updated_at: Some(at),
        };
        let copy = next.clone();
        store.rows.set(k, next);
        proof {
            assert(store@ =~= before.update(k as int, copy@));
            lemma_update_keeps_unique(before, k as int, copy@);
        }
        Ok(copy)
    }

    /// Applies `patch` to the user `id` now: the email that the patch names
    /// is taken over, and the raw password that it names is hashed under a
    /// fresh salt and stored as the credential. Fails with not-found
    /// whenever there is no such user, and else with a conflict whenever
    /// another user holds the email asked for; after that only the hasher
    /// can fail. Every failure leaves the table as it is.
    pub fn update(store: &mut UserStore, id: Id, patch: UserPatch) -> (r: Result<User, ApiError>)
        requires
            old(store).wf(),
        ensures
            final(store).wf(),
            match r {
                Ok(user) => {
                    &&& find(old(store)@, id) matches Some(before)
                    &&& !email_held_by_other(old(store)@, id, patch@.email)
                    &&& user@.id == id
                    &&& user@.created_at == before.created_at
                    &&& user@.updated_at is Some
                    &&& user@.email == match patch@.email {
                        Some(email) => email,
                        None => before.email,
                    }
                    &&& match patch@.password {
                        Some(raw) => is_credential_of(user@.password, raw),
                        None => user@.password == before.password,
                    }
                    &&& final(store)@ == old(store)@.update(index_of(old(store)@, id), user@)
                },
                Err(e) => {
                    &&& final(store)@ == old(store)@
                    &&& if !has_user(old(store)@, id) {
                        e@ == user_not_found()
                    } else if email_held_by_other(old(store)@, id, patch@.email) {
                        e@ == email_taken()
                    } else {
                        patch@.password is Some && e@ == hashing_failed()
                    }
                },
            },
    {
        match store.place_for_update(id, &patch.email) {
            Ok(_) => {},
            Err(e) => {
                return Err(e);
            },
        }
        let credential = match patch.password {
            Some(raw) => match hash_password(raw.as_str()) {
                Ok(credential) => Some(credential),
                Err(e) => {
                    return Err(e);
                },
            },
            None => None,
        };
        User::update_with(store, id, patch.email, credential, now())
    }

    /// Takes the user `id` out of the table; the other users keep their
    /// order. Fails, and leaves the table as it is, exactly when there is no
    /// such user.
    pub fn delete(store: &mut UserStore, id: Id) -> (r: Result<(), ApiError>)
        requires
            old(store).wf(),
        ensures
            final(store).wf(),
            match r {
                Ok(_) => {
                    &&& has_user(old(store)@, id)
                    &&& final(store)@ == without(old(store)@, id)
                },
                Err(e) => {
                    &&& !has_user(old(store)@, id)
                    &&& final(store)@ == old(store)@
                    &&& e@ == user_not_found()
                },
            },
    {
        match store.position(id) {
            Some(k) => {
                let ghost before = store@;
                store.rows.remove(k);
                proof {
                    assert(store@ =~= without(before, id));
                    lemma_remove_keeps_unique(before, k as int);
                }
                Ok(())
            },
            None => Err(ApiError::user_not_found()),
        }
    }

    /// All users, in the order of their registration.
    pub fn find_all(store: &UserStore) -> (r: Result<Vec<User>, ApiError>)
        ensures
            r matches Ok(users) && views(users@) == store@,
    {
        let mut all: Vec<User> = Vec::new();
        let mut k: usize = 0;
        while k < store.rows.len()
            invariant
                k <= store.rows.len(),
                store@.len() == store.rows.len(),
                all.len() == k,
                forall|i: int| 0 <= i < k ==> (#[trigger] all@[i])@ == store@[i],
            decreases store.rows.len() - k,
        {
            all.push(store.rows[k].clone());
            k += 1;
        }
        assert(views(all@) =~= store@);
        Ok(all)
    }
}

} // verus!
