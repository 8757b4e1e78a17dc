//! The requests on posts.
//!
//! Every request but the public feed begins by resolving the session. A
//! request on one post goes on only if the post belongs to the session's
//! user: a post of somebody else is reported as not found, like one that
//! does not exist.

use crate::api_error::{id_taken, post_not_found, unauthorized, ApiError, ApiErrorView};
use crate::ident::Id;
use crate::post::model::{views, NewPost, Post, PostPatch, PostStore};
use crate::post::table::{
    created, find, has_post, made_public, owned_by, patched, published, with_patch,
    with_published, without, PostView,
};
use crate::session::Session;
use crate::util::get_user_id_from_session;
use vstd::prelude::*;

verus! {

/// The row with the identifier `id`, if there is one and it belongs to
/// `owner`.
pub open spec fn find_owned(rows: Seq<PostView>, id: Id, owner: Id) -> Option<PostView> {
    match find(rows, id) {
        Some(p) if p.user_id == owner => Some(p),
        _ => None,
    }
}

/// The failure of a request on the post `id` under a session of `user`, if
/// the request is to be refused: there is no user, or no post of that user.
pub open spec fn refusal(rows: Seq<PostView>, user: Option<Id>, id: Id) -> Option<ApiErrorView> {
    match user {
        None => Some(unauthorized()),
        Some(owner) => if find_owned(rows, id, owner) is None {
            Some(post_not_found())
        } else {
            None
        },
    }
}

/// Resolves the session and checks that the post `post_id` belongs to its
/// user. Returns that user, or the failure that [`refusal`] names.
pub fn authorize(store: &PostStore, session: &Session, post_id: Id) -> (r: Result<Id, ApiError>)
    requires
        store.wf(),
    ensures
        match r {
            Ok(owner) => {
                &&& session@.user_id == Some(owner)
                &&& find_owned(store@, post_id, owner) is Some
                &&& refusal(store@, session@.user_id, post_id) is None
            },
            Err(e) => refusal(store@, session@.user_id, post_id) == Some(e@),
        },
{
    let owner = match get_user_id_from_session(session) {
        Ok(owner) => owner,
        Err(e) => {
            return Err(e);
        },
    };
    match Post::find_post(store, post_id) {
        Ok(post) if post.user_id() == owner => Ok(owner),
        _ => Err(ApiError::post_not_found()),
    }
}

/// `GET /posts`: the posts of the session's user, in the order of their
/// creation.
pub fn find_user_posts(store: &PostStore, session: &Session) -> (r: Result<Vec<Post>, ApiError>)
    ensures
        match r {
            Ok(posts) => {
                &&& session@.user_id matches Some(owner)
                &&& views(posts@) == owned_by(store@, owner)
            },
            Err(e) => {
                &&& session@.user_id is None
                &&& e@ == unauthorized()
            },
        },
{
    match get_user_id_from_session(session) {
        Ok(owner) => Post::find_user_posts(store, owner),
        Err(e) => Err(e),
    }
}

/// `POST /posts`: creates a post of the session's user. Without a user
/// nothing is drawn and nothing is stored. With a user the one failure is
/// that the identifier drawn was taken, which no identifier is on a table
/// without posts.
pub fn create_post(store: &mut PostStore, session: &Session, new_post: NewPost) -> (r: Result<
    Post,
    ApiError,
>)
    requires
        old(store).wf(),
    ensures
        final(store).wf(),
        match r {
            Ok(post) => {
                &&& session@.user_id matches Some(owner)
                &&& !has_post(old(store)@, post@.id)
                &&& post@ == created(new_post@, owner, post@.id, post@.created_at)
                &&& final(store)@ == old(store)@.push(post@)
            },
            Err(e) => {
                &&& final(store)@ == old(store)@
                &&& if session@.user_id is None {
                    e@ == unauthorized()
                } else {
                    old(store)@.len() > 0 && e@ == id_taken()
                }
            },
        },
{
    match get_user_id_from_session(session) {
        Ok(owner) => Post::create_post(store, new_post, owner),
        Err(e) => Err(e),
    }
}

/// `GET /posts/{id}`: the post `post_id`, if it belongs to the session's
/// user.
pub fn find_user_post(store: &PostStore, session: &Session, post_id: Id) -> (r: Result<
    Post,
    ApiError,
>)
    requires
        store.wf(),
    ensures
        match r {
            Ok(post) => {
                &&& session@.user_id matches Some(owner)
                &&& find_owned(store@, post_id, owner) == Some(post@)
            },
            Err(e) => refusal(store@, session@.user_id, post_id) == Some(e@),
        },
{
    match authorize(store, session, post_id) {
        Ok(_) => Post::find_post(store, post_id),
        Err(e) => Err(e),
    }
}

/// `PUT /posts/{id}`: applies `patch` to the post `post_id` now, if it
/// belongs to the session's user. A refused request leaves the table as it
/// is.
pub fn update_post(
    store: &mut PostStore,
    session: &Session,
    post_id: Id,
    patch: PostPatch,
) -> (r: Result<Post, ApiError>)
    requires
        old(store).wf(),
    ensures
        final(store).wf(),
        match r {
            Ok(post) => {
                &&& session@.user_id matches Some(owner)
                &&& find_owned(old(store)@, post_id, owner) matches Some(before)
                &&& post@.updated_at matches Some(at)
                &&& post@ == patched(before, patch@, at)
                &&& final(store)@ == with_patch(old(store)@, post_id, patch@, at)
            },
            Err(e) => {
                &&& final(store)@ == old(store)@
                &&& refusal(old(store)@, session@.user_id, post_id) == Some(e@)
            },
        },
{
    match authorize(store, session, post_id) {
        Ok(_) => Post::update_post(store, post_id, patch),
        Err(e) => Err(e),
    }
}

/// `DELETE /posts/{id}`: deletes the post `post_id`, if it belongs to the
/// session's user. A refused request leaves the table as it is.
pub fn delete_post(store: &mut PostStore, session: &Session, post_id: Id) -> (r: Result<
    (),
    ApiError,
>)
    requires
        old(store).wf(),
    ensures
        final(store).wf(),
        match r {
            Ok(_) => {
                &&& session@.user_id matches Some(owner)
                &&& find_owned(old(store)@, post_id, owner) is Some
                &&& final(store)@ == without(old(store)@, post_id)
            },
            Err(e) => {
                &&& final(store)@ == old(store)@
                &&& refusal(old(store)@, session@.user_id, post_id) == Some(e@)
            },
        },
{
    match authorize(store, session, post_id) {
        Ok(_) => Post::delete_post(store, post_id),
        Err(e) => Err(e),
    }
}

/// `GET /posts/published`: the published posts of all users, in the order
/// of their creation. No session is asked for, and no draft is shown.
pub fn find_published_posts(store: &PostStore) -> (r: Result<Vec<Post>, ApiError>)
    ensures
        r matches Ok(posts) && {
            &&& views(posts@) == published(store@)
            &&& forall|i: int| 0 <= i < posts@.len() ==> (#[trigger] posts@[i])@.published
        },
{
    Post::find_published_posts(store)
}

/// `PUT /posts/publish/{id}`: publishes the post `post_id`, if it belongs
/// to the session's user. A refused request leaves the table as it is.
pub fn publish_post(store: &mut PostStore, session: &Session, post_id: Id) -> (r: Result<
    Post,
    ApiError,
>)
    requires
        old(store).wf(),
    ensures
        final(store).wf(),
        match r {
            Ok(post) => {
                &&& session@.user_id matches Some(owner)
                &&& find_owned(old(store)@, post_id, owner) matches Some(before)
                &&& post@ == made_public(before)
                &&& final(store)@ == with_published(old(store)@, post_id)
            },
            Err(e) => {
                &&& final(store)@ == old(store)@
                &&& refusal(old(store)@, session@.user_id, post_id) == Some(e@)
            },
        },
{
    match authorize(store, session, post_id) {
        Ok(_) => Post::publish_post(store, post_id),
        Err(e) => Err(e),
    }
}

/// A post is out of reach of every user but its owner: a request on it
/// under the session of another user is refused as if the post did not
/// exist, a request without a user is refused as unauthorized, and a
/// request under the owner's session is not refused.
pub proof fn lemma_post_is_out_of_reach_of_others(rows: Seq<PostView>, id: Id, other: Id)
    requires
        has_post(rows, id),
        other != find(rows, id)->0.user_id,
    ensures
        refusal(rows, Some(other), id) == Some(post_not_found()),
        refusal(rows, Some(other), id) == refusal(Seq::<PostView>::empty(), Some(other), id),
        refusal(rows, None, id) == Some(unauthorized()),
        refusal(rows, Some(find(rows, id)->0.user_id), id) is None,
{
}

} // verus!
