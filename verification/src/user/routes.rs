//! The requests on users: registration, sign-in and sign-out, and what a
//! signed-in user does to its own account.

use crate::api_error::{
    credentials_not_valid, email_taken, hashing_failed, id_taken, unauthorized, user_not_found,
    verification_failed, ApiError, ApiErrorView, NOT_FOUND,
};
use crate::ident::Id;
use crate::password::{is_credential_of, verdict};
use crate::post::model::PostStore;
use crate::post::table::not_owned_by;
use crate::session::{Session, SessionStatus, SessionView};
use crate::user::model::{views, User, UserMessage, UserPatch, UserStore};
use crate::user::table::{
    email_held_by_other, find, find_by_email, has_email, has_user, index_of, without, UserView,
};
use crate::util::get_user_id_from_session;
use vstd::prelude::*;

verus! {

/// How a sign-in ends: `found` is the user registered under the email
/// given, if there is one, and `verdict` is what the verifier says of that
/// user's credential and the password given, `None` where it fails. An
/// unknown email and a wrong password end alike.
pub open spec fn sign_in_outcome(found: Option<UserView>, verdict: Option<bool>) -> Result<
    UserView,
    ApiErrorView,
> {
    match (found, verdict) {
        (Some(user), Some(true)) => Ok(user),
        (Some(_), None) => Err(verification_failed()),
        _ => Err(credentials_not_valid()),
    }
}

/// What the verifier says of the credential of the user found and the
/// password given; `None` where nobody was found, or where it fails.
pub open spec fn verdict_on(found: Option<UserView>, password: Seq<char>) -> Option<bool> {
    match found {
        Some(user) => verdict(user.password, password),
        None => None,
    }
}

/// What a request for a user returns, as mathematics.
pub open spec fn outcome_view(r: Result<User, ApiError>) -> Result<UserView, ApiErrorView> {
    match r {
        Ok(user) => Ok(user@),
        Err(e) => Err(e@),
    }
}

/// The session of a user who has just signed in.
pub open spec fn signed_in(user: Id) -> SessionView {
    SessionView { user_id: Some(user), status: SessionStatus::Renewed }
}

/// The session after a sign-out.
pub open spec fn signed_out() -> SessionView {
    SessionView { user_id: None, status: SessionStatus::Purged }
}

/// `GET /who-am-i`: the session's user.
pub fn who_am_i(users: &UserStore, session: &Session) -> (r: Result<User, ApiError>)
    requires
        users.wf(),
    ensures
        match r {
            Ok(user) => {
                &&& session@.user_id matches Some(id)
                &&& find(users@, id) == Some(user@)
            },
            Err(e) => match session@.user_id {
                None => e@ == unauthorized(),
                Some(id) => find(users@, id) is None && e@ == user_not_found(),
            },
        },
{
    match get_user_id_from_session(session) {
        Ok(id) => User::find(users, id),
        Err(e) => Err(e),
    }
}

/// The last step of a sign-in, once the user was found and the password
/// checked: where the password is valid, the session is established for the
/// user; where it is not, the session stays as it is.
pub fn finish_sign_in(session: &mut Session, user: User, is_valid: bool) -> (r: Result<
    User,
    ApiError,
>)
    ensures
        outcome_view(r) == sign_in_outcome(Some(user@), Some(is_valid)),
        final(session)@ == if is_valid {
            signed_in(user@.id)
        } else {
            old(session)@
        },
{
    if is_valid {
        session.establish(user.id());
        Ok(user)
    } else {
        Err(ApiError::credentials_not_valid())
    }
}

/// `POST /sign-in`: looks the user up by email and checks the password. On
/// success the session is established for the user, under a new token.
/// Every failure leaves the session as it is, and an unknown email fails
/// exactly as a wrong password does. The sign-in ends as
/// [`sign_in_outcome`] says, for the user found and the verifier's answer.
pub fn sign_in(users: &UserStore, session: &mut Session, credentials: UserMessage) -> (r: Result<
    User,
    ApiError,
>)
    requires
        users.wf(),
    ensures
        outcome_view(r) == sign_in_outcome(
            find_by_email(users@, credentials@.email),
            verdict_on(find_by_email(users@, credentials@.email), credentials@.password),
        ),
        final(session)@ == match r {
            Ok(user) => signed_in(user@.id),
            Err(_) => old(session)@,
        },
{
    let user = match User::find_by_email(users, credentials.email) {
        Ok(user) => user,
        Err(e) => {
            return Err(
                if e.status_code == NOT_FOUND {
                    ApiError::credentials_not_valid()
                } else {
                    e
                },
            );
        },
    };
    match user.verify_password(credentials.password.as_str()) {
        Ok(is_valid) => finish_sign_in(session, user, is_valid),
        Err(e) => Err(e),
    }
}

/// `POST /sign-out`: ends the session of a signed-in user. A session
/// without a user is refused and stays as it is.
pub fn sign_out(session: &mut Session) -> (r: Result<(), ApiError>)
    ensures
        match r {
            Ok(_) => {
                &&& old(session)@.user_id is Some
                &&& final(session)@ == signed_out()
            },
            Err(e) => {
                &&& old(session)@.user_id is None
                &&& final(session)@ == old(session)@
                &&& e@ == unauthorized()
            },
        },
{
    match get_user_id_from_session(session) {
        Ok(_) => {
            session.terminate();
            Ok(())
        },
        Err(e) => Err(e),
    }
}

/// `POST /register`: registers the user of `message`. See [`User::create`].
pub fn register_user(users: &mut UserStore, message: UserMessage) -> (r: Result<User, ApiError>)
    requires
        old(users).wf(),
    ensures
        final(users).wf(),
        match r {
            Ok(user) => {
                &&& !has_email(old(users)@, message@.email)
                &&& !has_user(old(users)@, user@.id)
                &&& user@.email == message@.email
                &&& is_credential_of(user@.password, message@.password)
                &&& user@.updated_at is None
                &&& final(users)@ == old(users)@.push(user@)
            },
            Err(e) => {
                &&& final(users)@ == old(users)@
                &&& if has_email(old(users)@, message@.email) {
                    e@ == email_taken()
                } else {
                    e@ == hashing_failed() || (old(users)@.len() > 0 && e@ == id_taken())
                }
            },
        },
{
    User::create(users, message)
}

/// `GET /users`: all users, in the order of their registration.
pub fn find_all(users: &UserStore) -> (r: Result<Vec<User>, ApiError>)
    ensures
        r matches Ok(all) && views(all@) == users@,
{
    User::find_all(users)
}

/// `POST /users`: registers the user of `message`, as [`register_user`]
/// does.
pub fn create_user(users: &mut UserStore, message: UserMessage) -> (r: Result<User, ApiError>)
    requires
        old(users).wf(),
    ensures
        final(users).wf(),
        match r {
            Ok(user) => {
                &&& !has_email(old(users)@, message@.email)
                &&& !has_user(old(users)@, user@.id)
                &&& user@.email == message@.email
                &&& is_credential_of(user@.password, message@.password)
                &&& user@.updated_at is None
                &&& final(users)@ == old(users)@.push(user@)
            },
            Err(e) => {
                &&& final(users)@ == old(users)@
                &&& if has_email(old(users)@, message@.email) {
                    e@ == email_taken()
                } else {
                    e@ == hashing_failed() || (old(users)@.len() > 0 && e@ == id_taken())
                }
            },
        },
{
    User::create(users, message)
}

/// `PUT /users`: applies `patch` to the session's user. See
/// [`User::update`]. A session without a user is refused before anything
/// else is looked at.
pub fn update_user(users: &mut UserStore, session: &Session, patch: UserPatch) -> (r: Result<
    User,
    ApiError,
>)
    requires
        old(users).wf(),
    ensures
        final(users).wf(),
        match r {
            Ok(user) => {
                &&& session@.user_id matches Some(id)
                &&& find(old(users)@, id) matches Some(before)
                &&& !email_held_by_other(old(users)@, id, patch@.email)
                &&& user@.id == id
                &&& user@.created_at == before.created_at
                &&& user@.updated_at is Some
                &&& user@.email == match patch@.email {
                    Some(email) => email,
                    None => before.email,
                }
                &&& match patch@.password {
                    Some(raw) => is_credential_of(user@.password, raw),
                    None => user@.password == before.password,
                }
                &&& final(users)@ == old(users)@.update(index_of(old(users)@, id), user@)
            },
            Err(e) => {
                &&& final(users)@ == old(users)@
                &&& match session@.user_id {
                    None => e@ == unauthorized(),
                    Some(id) => if !has_user(old(users)@, id) {
                        e@ == user_not_found()
                    } else if email_held_by_other(old(users)@, id, patch@.email) {
                        e@ == email_taken()
                    } else {
                        patch@.password is Some && e@ == hashing_failed()
                    },
                }
            },
        },
{
    match get_user_id_from_session(session) {
        Ok(id) => User::update(users, id, patch),
        Err(e) => Err(e),
    }
}

/// `DELETE /users`: deletes the session's user, and with it every post of
/// that user. A refused request leaves both tables as they are. The
/// session is not touched.
pub fn delete_user(users: &mut UserStore, posts: &mut PostStore, session: &Session) -> (r: Result<
    (),
    ApiError,
>)
    requires
        old(users).wf(),
        old(posts).wf(),
    ensures
        final(users).wf(),
        final(posts).wf(),
        match r {
            Ok(_) => {
                &&& session@.user_id matches Some(id)
                &&& has_user(old(users)@, id)
                &&& final(users)@ == without(old(users)@, id)
                &&& final(posts)@ == not_owned_by(old(posts)@, id)
            },
            Err(e) => {
                &&& final(users)@ == old(users)@
                &&& final(posts)@ == old(posts)@
                &&& match session@.user_id {
                    None => e@ == unauthorized(),
                    Some(id) => !has_user(old(users)@, id) && e@ == user_not_found(),
                }
            },
        },
{
    let id = match get_user_id_from_session(session) {
        Ok(id) => id,
        Err(e) => {
            return Err(e);
        },
    };
    match User::delete(users, id) {
        Ok(_) => {
            posts.remove_owned_by(id);
            Ok(())
        },
        Err(e) => Err(e),
    }
}

/// A sign-in under an email that nobody registered and a sign-in with a
/// wrong password fail with one and the same error: the answer does not
/// tell whether the email is registered.
pub proof fn lemma_sign_in_failures_alike(user: UserView, verdict: Option<bool>)
    ensures
        sign_in_outcome(None, verdict) == sign_in_outcome(Some(user), Some(false)),
        sign_in_outcome(None, verdict) == Err::<UserView, ApiErrorView>(credentials_not_valid()),
{
}

} // verus!
