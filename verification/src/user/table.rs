//! The table of users, as mathematics: a sequence of rows in the order of
//! their registration, what each operation makes of it, and what holds of
//! the operations together.

use crate::clock::Timestamp;
use crate::ident::Id;
use vstd::prelude::*;

verus! {

/// A row of the table: what a user is. `password` is the stored credential,
/// never the raw password.
pub ghost struct UserView {
    pub id: Id,
    pub email: Seq<char>,
    pub password: Seq<char>,
    pub created_at: Timestamp,
    pub updated_at: Option<Timestamp>,
}

/// What a client sends to register or to sign in: an email and a raw
/// password.
pub ghost struct UserMessageView {
    pub email: Seq<char>,
    pub password: Seq<char>,
}

/// What a partial update of a user is: a field that is `None` stays as it
/// is. The password is a raw one.
pub ghost struct UserPatchView {
    pub email: Option<Seq<char>>,
    pub password: Option<Seq<char>>,
}

/// No two rows share an identifier.
pub open spec fn unique_ids(rows: Seq<UserView>) -> bool {
    forall|i: int, j: int|
        0 <= i < j < rows.len() ==> (#[trigger] rows[i]).id != (#[trigger] rows[j]).id
}

/// No two rows share an email.
pub open spec fn unique_emails(rows: Seq<UserView>) -> bool {
    forall|i: int, j: int|
        0 <= i < j < rows.len() ==> (#[trigger] rows[i]).email != (#[trigger] rows[j]).email
}

/// Some row has the identifier `id`.
pub open spec fn has_user(rows: Seq<UserView>, id: Id) -> bool {
    exists|i: int| 0 <= i < rows.len() && (#[trigger] rows[i]).id == id
}

/// The place of a row with the identifier `id`, where there is one.
pub open spec fn index_of(rows: Seq<UserView>, id: Id) -> int {
    choose|i: int| 0 <= i < rows.len() && (#[trigger] rows[i]).id == id
}

/// The row with the identifier `id`, where there is one.
pub open spec fn find(rows: Seq<UserView>, id: Id) -> Option<UserView> {
    if has_user(rows, id) {
        Some(rows[index_of(rows, id)])
    } else {
        None
    }
}

/// Some row has the email `email`.
pub open spec fn has_email(rows: Seq<UserView>, email: Seq<char>) -> bool {
    exists|i: int| 0 <= i < rows.len() && (#[trigger] rows[i]).email == email
}

/// The place of a row with the email `email`, where there is one.
pub open spec fn index_of_email(rows: Seq<UserView>, email: Seq<char>) -> int {
    choose|i: int| 0 <= i < rows.len() && (#[trigger] rows[i]).email == email
}

/// The row with the email `email`, where there is one.
pub open spec fn find_by_email(rows: Seq<UserView>, email: Seq<char>) -> Option<UserView> {
    if has_email(rows, email) {
        Some(rows[index_of_email(rows, email)])
    } else {
        None
    }
}

/// A user other than `id` holds the email that is asked for.
pub open spec fn email_held_by_other(rows: Seq<UserView>, id: Id, email: Option<Seq<char>>) -> bool {
    match email {
        Some(wanted) => exists|i: int|
            0 <= i < rows.len() && (#[trigger] rows[i]).email == wanted && rows[i].id != id,
        None => false,
    }
}

/// The row of a user who registers under `email` with the credential
/// `credential`, under the identifier `id` at the time `at`.
pub open spec fn registered(
    email: Seq<char>,
    credential: Seq<char>,
    id: Id,
    at: Timestamp,
) -> UserView {
    UserView { id, email, password: credential, created_at: at, updated_at: None }
}

/// The row `u` after its email and its credential were replaced by those
/// given, at the time `at`. `updated_at` is `at` in any case.
pub open spec fn revised(
    u: UserView,
    email: Option<Seq<char>>,
    credential: Option<Seq<char>>,
    at: Timestamp,
) -> UserView {
    UserView {
        email: match email {
            Some(email) => email,
            None => u.email,
        },
        password: match credential {
            Some(credential) => credential,
            None => u.password,
        },
        updated_at: Some(at),
        ..u
    }
}

/// The table after the row with the identifier `id` was revised.
pub open spec fn with_revision(
    rows: Seq<UserView>,
    id: Id,
    email: Option<Seq<char>>,
    credential: Option<Seq<char>>,
    at: Timestamp,
) -> Seq<UserView> {
    let k = index_of(rows, id);
    rows.update(k, revised(rows[k], email, credential, at))
}

/// The table without the row with the identifier `id`.
pub open spec fn without(rows: Seq<UserView>, id: Id) -> Seq<UserView> {
    rows.remove(index_of(rows, id))
}

/// In a table without repeated identifiers and emails, the row that stands
/// at a place is the row that is found under its identifier, and under its
/// email.
pub proof fn lemma_find_at(rows: Seq<UserView>, k: int)
    requires
        unique_ids(rows),
        unique_emails(rows),
        0 <= k < rows.len(),
    ensures
        has_user(rows, rows[k].id),
        index_of(rows, rows[k].id) == k,
        find(rows, rows[k].id) == Some(rows[k]),
        has_email(rows, rows[k].email),
        index_of_email(rows, rows[k].email) == k,
        find_by_email(rows, rows[k].email) == Some(rows[k]),
{
    let by_id = index_of(rows, rows[k].id);
    assert(rows[by_id].id == rows[k].id);
    let by_email = index_of_email(rows, rows[k].email);
    assert(rows[by_email].email == rows[k].email);
}

/// A row under an identifier and an email that are not taken may be added
/// at the end: the identifiers and the emails stay distinct.
pub proof fn lemma_push_keeps_unique(rows: Seq<UserView>, row: UserView)
    requires
        unique_ids(rows),
        unique_emails(rows),
        !has_user(rows, row.id),
        !has_email(rows, row.email),
    ensures
        unique_ids(rows.push(row)),
        unique_emails(rows.push(row)),
{
    let next = rows.push(row);
    assert forall|i: int, j: int| 0 <= i < j < next.len() implies (#[trigger] next[i]).id != (
    #[trigger] next[j]).id by {
        assert(next[i] == rows[i]);
        if j < rows.len() {
            assert(next[j] == rows[j]);
        }
    }
    assert forall|i: int, j: int| 0 <= i < j < next.len() implies (#[trigger] next[i]).email != (
    #[trigger] next[j]).email by {
        assert(next[i] == rows[i]);
        if j < rows.len() {
            assert(next[j] == rows[j]);
        }
    }
}

/// A row may be replaced by one with the same identifier and with an email
/// that no other row holds: the identifiers and the emails stay distinct.
pub proof fn lemma_update_keeps_unique(rows: Seq<UserView>, k: int, row: UserView)
    requires
        unique_ids(rows),
        unique_emails(rows),
        0 <= k < rows.len(),
        row.id == rows[k].id,
        !email_held_by_other(rows, row.id, Some(row.email)),
    ensures
        unique_ids(rows.update(k, row)),
        unique_emails(rows.update(k, row)),
{
    let next = rows.update(k, row);
    assert forall|i: int, j: int| 0 <= i < j < next.len() implies (#[trigger] next[i]).id != (
    #[trigger] next[j]).id by {
        assert(next[i].id == rows[i].id);
        assert(next[j].id == rows[j].id);
    }
    assert forall|i: int, j: int| 0 <= i < j < next.len() implies (#[trigger] next[i]).email != (
    #[trigger] next[j]).email by {
        if i == k {
            assert(next[j] == rows[j]);
            assert(rows[j].id != rows[k].id);
        } else if j == k {
            assert(next[i] == rows[i]);
            assert(rows[i].id != rows[k].id);
        } else {
            assert(next[i] == rows[i] && next[j] == rows[j]);
        }
    }
}

/// A row may be taken out: the identifiers and the emails stay distinct,
/// and neither the identifier nor the email taken out is in the table any
/// longer.
pub proof fn lemma_remove_keeps_unique(rows: Seq<UserView>, k: int)
    requires
        unique_ids(rows),
        unique_emails(rows),
        0 <= k < rows.len(),
    ensures
        unique_ids(rows.remove(k)),
        unique_emails(rows.remove(k)),
        !has_user(rows.remove(k), rows[k].id),
        !has_email(rows.remove(k), rows[k].email),
{
    let rest = rows.remove(k);
    assert forall|i: int, j: int| 0 <= i < j < rest.len() implies (#[trigger] rest[i]).id != (
    #[trigger] rest[j]).id by {
        let a = if i < k { i } else { i + 1 };
        let b = if j < k { j } else { j + 1 };
        assert(rest[i] == rows[a] && rest[j] == rows[b]);
    }
    assert forall|i: int, j: int| 0 <= i < j < rest.len() implies (#[trigger] rest[i]).email != (
    #[trigger] rest[j]).email by {
        let a = if i < k { i } else { i + 1 };
        let b = if j < k { j } else { j + 1 };
        assert(rest[i] == rows[a] && rest[j] == rows[b]);
    }
    if has_user(rest, rows[k].id) {
        let m = index_of(rest, rows[k].id);
        let a = if m < k { m } else { m + 1 };
        assert(rest[m] == rows[a]);
    }
    if has_email(rest, rows[k].email) {
        let m = index_of_email(rest, rows[k].email);
        let a = if m < k { m } else { m + 1 };
        assert(rest[m] == rows[a]);
    }
}

/// A user who has just registered is found under the email and under the
/// identifier of the registration, with the credential that was stored.
pub proof fn lemma_find_after_register(
    rows: Seq<UserView>,
    email: Seq<char>,
    credential: Seq<char>,
    id: Id,
    at: Timestamp,
)
    requires
        unique_ids(rows),
        unique_emails(rows),
        !has_email(rows, email),
        !has_user(rows, id),
    ensures
        find_by_email(rows.push(registered(email, credential, id, at)), email) == Some(
            registered(email, credential, id, at),
        ),
        find(rows.push(registered(email, credential, id, at)), id) == Some(
            registered(email, credential, id, at),
        ),
{
    let user = registered(email, credential, id, at);
    let next = rows.push(user);
    lemma_push_keeps_unique(rows, user);
    assert(next[rows.len() as int] == user);
    lemma_find_at(next, rows.len() as int);
}

/// A user who was deleted is found neither under its identifier nor under
/// its email, so that the email can be registered anew.
pub proof fn lemma_find_after_delete(rows: Seq<UserView>, id: Id)
    requires
        unique_ids(rows),
        unique_emails(rows),
        has_user(rows, id),
    ensures
        find(without(rows, id), id) is None,
        find_by_email(without(rows, id), find(rows, id)->0.email) is None,
{
    lemma_remove_keeps_unique(rows, index_of(rows, id));
}

/// An update changes neither the identifier of a user nor the time of its
/// registration.
pub proof fn lemma_revision_keeps_identity(
    u: UserView,
    email: Option<Seq<char>>,
    credential: Option<Seq<char>>,
    at: Timestamp,
)
    ensures
        revised(u, email, credential, at).id == u.id,
        revised(u, email, credential, at).created_at == u.created_at,
        revised(u, email, credential, at).updated_at == Some(at),
        email is None ==> revised(u, email, credential, at).email == u.email,
        credential is None ==> revised(u, email, credential, at).password == u.password,
{
}

} // verus!
