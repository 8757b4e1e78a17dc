//! Posts and the store that holds them.
//!
//! The store is a table of posts in the order of their creation, and no two
//! posts in it share an identifier. The store asks nobody who they are: the
//! requests do that before they come here.

use crate::api_error::{id_taken, post_not_found, ApiError};
use crate::clock::{now, Timestamp};
use crate::ident::{fresh_id, Id};
use crate::post::table::{
    created, find, has_post, index_of, lemma_feed_holds_no_draft, lemma_filter_keeps_unique_ids,
    lemma_push_keeps_unique_ids, lemma_remove_keeps_unique_ids, lemma_update_keeps_unique_ids,
    made_public, not_owned_by, owned_by, patched, published, unique_ids, with_patch,
    with_published, without, NewPostView, PostPatchView, PostView,
};
use vstd::prelude::*;

verus! {

/// The title and body of a post to be created.
#[derive(Debug, PartialEq, Eq)]
pub struct NewPost {
    title: String,
    body: String,
}

impl View for NewPost {
    type V = NewPostView;

    closed spec fn view(&self) -> NewPostView {
        NewPostView { title: self.title@, body: self.body@ }
    }
}

/// A partial update of a post: a field that is absent stays as it is.
#[derive(Debug, PartialEq, Eq)]
pub struct PostPatch {
    title: Option<String>,
    body: Option<String>,
}

impl View for PostPatch {
    type V = PostPatchView;

    closed spec fn view(&self) -> PostPatchView {
        PostPatchView { title: self.title.deep_view(), body: self.body.deep_view() }
    }
}

/// A post. It belongs to the user `user_id` from its creation on.
#[derive(Debug, PartialEq, Eq)]
pub struct Post {
    id: Id,
    user_id: Id,
    title: String,
    body: String,
    published: bool,
    created_at: Timestamp,
    updated_at: Option<Timestamp>,
}

impl View for Post {
    type V = PostView;

    closed spec fn view(&self) -> PostView {
        PostView {
            id: self.id,
            user_id: self.user_id,
            title: self.title@,
            body: self.body@,
            published: self.published,
            created_at: self.created_at,
            updated_at: self.updated_at,
        }
    }
}

/// The outward form of a post: all of it but the owner, which no response
/// carries.
#[derive(Debug, PartialEq, Eq)]
pub struct PublicPost {
    pub id: Id,
    pub title: String,
    pub body: String,
    pub published: bool,
    pub created_at: Timestamp,
    pub updated_at: Option<Timestamp>,
}

/// The table of posts.
pub struct PostStore {
    rows: Vec<Post>,
}

impl View for PostStore {
    type V = Seq<PostView>;

    closed spec fn view(&self) -> Seq<PostView> {
        views(self.rows@)
    }
}

/// The rows of a sequence of posts.
pub open spec fn views(posts: Seq<Post>) -> Seq<PostView> {
    posts.map_values(|p: Post| p@)
}

impl NewPost {
    /// The request to create a post with this title and body.
    pub fn new(title: String, body: String) -> (new_post: NewPost)
        ensures
            new_post@ == (NewPostView { title: title@, body: body@ }),
    {
        NewPost { title, body }
    }

    /// The title asked for.
    pub fn title(&self) -> (title: &String)
        ensures
            title@ == self@.title,
    {
        &self.title
    }

    /// The body asked for.
    pub fn body(&self) -> (body: &String)
        ensures
            body@ == self@.body,
    {
        &self.body
    }

    /// The patch that sets both the title and the body to those of `self`.
    pub fn into_patch(self) -> (patch: PostPatch)
        ensures
            patch@ == (PostPatchView { title: Some(self@.title), body: Some(self@.body) }),
    {
        PostPatch { title: Some(self.title), body: Some(self.body) }
    }
}

impl PostPatch {
    /// The patch that replaces the fields given and leaves the others.
    pub fn new(title: Option<String>, body: Option<String>) -> (patch: PostPatch)
        ensures
            patch@ == (PostPatchView { title: title.deep_view(), body: body.deep_view() }),
    {
        PostPatch { title, body }
    }

    /// The new title, if the patch has one.
    pub fn title(&self) -> (title: &Option<String>)
        ensures
            title.deep_view() == self@.title,
    {
        &self.title
    }

    /// The new body, if the patch has one.
    pub fn body(&self) -> (body: &Option<String>)
        ensures
            body.deep_view() == self@.body,
    {
        &self.body
    }
}

impl Clone for Post {
    fn clone(&self) -> (copy: Post)
        ensures
            copy@ == self@,
    {
        Post {
            id: self.id,
            user_id: self.user_id,
            title: self.title.clone(),
            body: self.body.clone(),
            published: self.published,
            created_at: self.created_at,
            updated_at: self.updated_at,
        }
    }
}

impl PostStore {
    /// The store's invariant: no two posts share an identifier.
    pub open spec fn wf(&self) -> bool {
        unique_ids(self@)
    }

    /// A store without posts.
    pub fn new() -> (store: PostStore)
        ensures
            store.wf(),
            store@ == Seq::<PostView>::empty(),
    {
        let store = PostStore { rows: Vec::new() };
        assert(store@ =~= Seq::<PostView>::empty());
        store
    }

    /// The number of posts.
    pub fn len(&self) -> (n: usize)
        ensures
            n == self@.len(),
    {
        self.rows.len()
    }

    /// The place of the post `id`, if the store has it.
    fn position(&self, id: Id) -> (place: Option<usize>)
        requires
            self.wf(),
        ensures
            match place {
                Some(k) => {
                    &&& has_post(self@, id)
                    &&& index_of(self@, id) == k
                    &&& k < self.rows.len()
                    &&& self.rows[k as int]@ == self@[k as int]
                },
                None => !has_post(self@, id),
            },
    {
        let mut k: usize = 0;
        while k < self.rows.len()
            invariant
                self.wf(),
                k <= self.rows.len(),
                self@.len() == self.rows.len(),
                forall|i: int| 0 <= i < k ==> (#[trigger] self@[i]).id != id,
            decreases self.rows.len() - k,
        {
            if self.rows[k].id == id {
                assert(self@[k as int].id == id);
                return Some(k);
            }
            k += 1;
        }
        None
    }

    /// Adds `post` at the end of the table, unless its identifier is taken.
    pub fn insert(&mut self, post: Post) -> (r: Result<(), ApiError>)
        requires
            old(self).wf(),
        ensures
            final(self).wf(),
            match r {
                Ok(_) => {
                    &&& !has_post(old(self)@, post@.id)
                    &&& final(self)@ == old(self)@.push(post@)
                },
                Err(e) => {
                    &&& has_post(old(self)@, post@.id)
                    &&& final(self)@ == old(self)@
                    &&& e@ == id_taken()
                },
            },
    {
        match self.position(post.id) {
            Some(_) => Err(ApiError::id_taken()),
            None => {
                let ghost before = self@;
                self.rows.push(post);
                proof {
                    assert(self@ =~= before.push(post@));
                    lemma_push_keeps_unique_ids(before, post@);
                }
                Ok(())
            },
        }
    }

    /// Puts `next` in the place `k`, where a post with the same identifier
    /// stands.
    fn replace(&mut self, k: usize, next: Post)
        requires
            old(self).wf(),
            k < old(self)@.len(),
            next@.id == old(self)@[k as int].id,
        ensures
            final(self).wf(),
            final(self)@ == old(self)@.update(k as int, next@),
    {
        let ghost before = self@;
        self.rows.set(k, next);
        proof {
            assert(self@ =~= before.update(k as int, next@));
            lemma_update_keeps_unique_ids(before, k as int, next@);
        }
    }

    /// Takes every post of `owner` out of the table, and says how many
    /// there were. The other posts keep their order.
    pub fn remove_owned_by(&mut self, owner: Id) -> (removed: usize)
        requires
            old(self).wf(),
        ensures
            final(self).wf(),
            final(self)@ == not_owned_by(old(self)@, owner),
            removed == old(self)@.len() - final(self)@.len(),
    {
        let ghost before = self@;
        let ghost keep = |p: PostView| p.user_id != owner;
        let mut kept: Vec<Post> = Vec::new();
        let mut removed: usize = 0;
        let mut k: usize = 0;
        assert(before.take(0) =~= Seq::<PostView>::empty());
        assert(views(kept@) =~= Seq::<PostView>::empty());
        while k < self.rows.len()
            invariant
                self@ == before,
                k <= self.rows.len(),
                before.len() == self.rows.len(),
                keep == |p: PostView| p.user_id != owner,
                views(kept@) == before.take(k as int).filter(keep),
                removed + kept.len() == k,
            decreases self.rows.len() - k,
        {
            proof {
                before.lemma_take_succ_push(k as int);
                before.take(k as int).lemma_filter_push(before[k as int], keep);
            }
            if self.rows[k].user_id == owner {
                removed += 1;
            } else {
                let ghost so_far = views(kept@);
                kept.push(self.rows[k].clone());
                assert(views(kept@) =~= so_far.push(before[k as int]));
            }
            k += 1;
        }
        proof {
            assert(before.take(k as int) =~= before);
            lemma_filter_keeps_unique_ids(before, keep);
        }
        self.rows = kept;
        removed
    }
}

impl Post {
    /// The identifier of the post.
    pub fn id(&self) -> (id: Id)
        ensures
            id == self@.id,
    {
        self.id
    }

    /// The user that the post belongs to.
    pub fn user_id(&self) -> (user_id: Id)
        ensures
            user_id == self@.user_id,
    {
        self.user_id
    }

    /// The title of the post.
    pub fn title(&self) -> (title: &String)
        ensures
            title@ == self@.title,
    {
        &self.title
    }

    /// The body of the post.
    pub fn body(&self) -> (body: &String)
        ensures
            body@ == self@.body,
    {
        &self.body
    }

    /// Whether the post is published.
    pub fn published(&self) -> (published: bool)
        ensures
            published == self@.published,
    {
        self.published
    }

    /// When the post was created.
    pub fn created_at(&self) -> (created_at: Timestamp)
        ensures
            created_at == self@.created_at,
    {
        self.created_at
    }

    /// When the post was last updated, if it ever was.
    pub fn updated_at(&self) -> (updated_at: Option<Timestamp>)
        ensures
            updated_at == self@.updated_at,
    {
        self.updated_at
    }

    /// The outward form of the post.
    pub fn public(&self) -> (out: PublicPost)
        ensures
            out.id == self@.id,
            out.title@ == self@.title,
            out.body@ == self@.body,
            out.published == self@.published,
            out.created_at == self@.created_at,
            out.updated_at == self@.updated_at,
    {
        PublicPost {
            id: self.id,
            title: self.title.clone(),
            body: self.body.clone(),
            published: self.published,
            created_at: self.created_at,
            updated_at: self.updated_at,
        }
    }

    /// A post with the given fields.
    pub fn new(
        id: Id,
        user_id: Id,
        title: String,
        body: String,
        published: bool,
        created_at: Timestamp,
        updated_at: Option<Timestamp>,
    ) -> (post: Post)
        ensures
            post@ == (PostView {
                id,
                user_id,
                title: title@,
                body: body@,
                published,
                created_at,
                updated_at,
            }),
    {
        Post { id, user_id, title, body, published, created_at, updated_at }
    }

    /// The post that `user_id` creates from `new_post` under the identifier
    /// `id` at the time `at`.
    pub fn from_new_post_at(new_post: NewPost, user_id: Id, id: Id, at: Timestamp) -> (post: Post)
        ensures
            post@ == created(new_post@, user_id, id, at),
    {
        Post {
            id,
            user_id,
            title: new_post.title,
            body: new_post.body,
            published: false,
            created_at: at,
            updated_at: None,
        }
    }

    /// The post that `user_id` creates from `new_post` now, under a fresh
    /// random identifier.
    pub fn from_new_post(new_post: NewPost, user_id: Id) -> (post: Post)
        ensures
            post@ == created(new_post@, user_id, post@.id, post@.created_at),
    {
        Post::from_new_post_at(new_post, user_id, fresh_id(), now())
    }

    /// Creates the post of `user_id` from `new_post` under the identifier
    /// `id` at the time `at`, and stores it at the end of the table. Fails
    /// with a conflict, and leaves the table as it is, exactly when the
    /// identifier is taken.
    pub fn create_post_at(
        store: &mut PostStore,
        new_post: NewPost,
        user_id: Id,
        id: Id,
        at: Timestamp,
    ) -> (r: Result<Post, ApiError>)
        requires
            old(store).wf(),
        ensures
            final(store).wf(),
            match r {
                Ok(post) => {
                    &&& !has_post(old(store)@, id)
                    &&& post@ == created(new_post@, user_id, id, at)
                    &&& final(store)@ == old(store)@.push(post@)
                },
                Err(e) => {
                    &&& has_post(old(store)@, id)
                    &&& final(store)@ == old(store)@
                    &&& e@ == id_taken()
                },
            },
    {
        let post = Post::from_new_post_at(new_post, user_id, id, at);
        let copy = post.clone();
        match store.insert(post) {
            Ok(_) => Ok(copy),
            Err(e) => Err(e),
        }
    }

    /// Creates the post of `user_id` from `new_post` now, under a fresh
    /// random identifier, and stores it at the end of the table. The one
    /// failure is a conflict: the identifier drawn was taken, and the table
    /// is as it was. On a table without posts no identifier is taken, and
    /// the post is created.
    pub fn create_post(store: &mut PostStore, new_post: NewPost, user_id: Id) -> (r: Result<
        Post,
        ApiError,
    >)
        requires
            old(store).wf(),
        ensures
            final(store).wf(),
            match r {
                Ok(post) => {
                    &&& !has_post(old(store)@, post@.id)
                    &&& post@ == created(new_post@, user_id, post@.id, post@.created_at)
                    &&& final(store)@ == old(store)@.push(post@)
                },
                Err(e) => {
                    &&& old(store)@.len() > 0
                    &&& final(store)@ == old(store)@
                    &&& e@ == id_taken()
                },
            },
    {
        Post::create_post_at(store, new_post, user_id, fresh_id(), now())
    }

    /// The post `post_id`. The store does not ask who the owner is: whoever
    /// has the identifier gets the post.
    pub fn find_post(store: &PostStore, post_id: Id) -> (r: Result<Post, ApiError>)
        requires
            store.wf(),
        ensures
            match r {
                Ok(post) => find(store@, post_id) == Some(post@),
                Err(e) => {
                    &&& find(store@, post_id) is None
                    &&& e@ == post_not_found()
                },
            },
    {
        match store.position(post_id) {
            Some(k) => Ok(store.rows[k].clone()),
            None => Err(ApiError::post_not_found()),
        }
    }

    /// Applies `patch` to the post `post_id` at the time `at`: the title and
    /// the body that the patch names are replaced, and `updated_at` becomes
    /// `at` whether or not anything changed. Fails, and leaves the table as
    /// it is, exactly when there is no such post.
    pub fn update_post_at(
        store: &mut PostStore,
        post_id: Id,
        patch: PostPatch,
        at: Timestamp,
    ) -> (r: Result<Post, ApiError>)
        requires
            old(store).wf(),
        ensures
            final(store).wf(),
            match r {
                Ok(post) => {
                    &&& find(old(store)@, post_id) matches Some(before)
                    &&& post@ == patched(before, patch@, at)
                    &&& final(store)@ == with_patch(old(store)@, post_id, patch@, at)
                },
                Err(e) => {
                    &&& find(old(store)@, post_id) is None
                    &&& final(store)@ == old(store)@
                    &&& e@ == post_not_found()
                },
            },
    {
        match store.position(post_id) {
            Some(k) => {
                let row = &store.rows[k];
                let next = Post {
                    id: row.id,
                    user_id: row.user_id,
                    title: match patch.title {
                        Some(title) => title,
                        None => row.title.clone(),
                    },
                    body: match patch.body {
                        Some(body) => body,
                        None => row.body.clone(),
                    },
                    published: row.published,
                    created_at: row.created_at,
                    updated_at: Some(at),
                };
                let copy = next.clone();
                store.replace(k, next);
                Ok(copy)
            },
            None => Err(ApiError::post_not_found()),
        }
    }

    /// Applies `patch` to the post `post_id` now. See
    /// [`Post::update_post_at`]; the time used is the `updated_at` of the
    /// post returned.
    pub fn update_post(store: &mut PostStore, post_id: Id, patch: PostPatch) -> (r: Result<
        Post,
        ApiError,
    >)
        requires
            old(store).wf(),
        ensures
            final(store).wf(),
            match r {
                Ok(post) => {
                    &&& find(old(store)@, post_id) matches Some(before)
                    &&& post@.updated_at matches Some(at)
                    &&& post@ == patched(before, patch@, at)
                    &&& final(store)@ == with_patch(old(store)@, post_id, patch@, at)
                },
                Err(e) => {
                    &&& find(old(store)@, post_id) is None
                    &&& final(store)@ == old(store)@
                    &&& e@ == post_not_found()
                },
            },
    {
        Post::update_post_at(store, post_id, patch, now())
    }

    /// Takes the post `post_id` out of the table; the other posts keep their
    /// order. Fails, and leaves the table as it is, exactly when there is no
    /// such post.
    pub fn delete_post(store: &mut PostStore, post_id: Id) -> (r: Result<(), ApiError>)
        requires
            old(store).wf(),
        ensures
            final(store).wf(),
            match r {
                Ok(_) => {
                    &&& has_post(old(store)@, post_id)
                    &&& final(store)@ == without(old(store)@, post_id)
                },
                Err(e) => {
                    &&& !has_post(old(store)@, post_id)
                    &&& final(store)@ == old(store)@
                    &&& e@ == post_not_found()
                },
            },
    {
        match store.position(post_id) {
            Some(k) => {
                let ghost before = store@;
                store.rows.remove(k);
                proof {
                    assert(store@ =~= without(before, post_id));
                    lemma_remove_keeps_unique_ids(before, k as int);
                }
                Ok(())
            },
            None => Err(ApiError::post_not_found()),
        }
    }

    /// The posts of `user_id`, in the order of their creation.
    pub fn find_user_posts(store: &PostStore, user_id: Id) -> (r: Result<Vec<Post>, ApiError>)
        ensures
            r matches Ok(posts) && views(posts@) == owned_by(store@, user_id),
    {
        let ghost rows = store@;
        let ghost keep = |p: PostView| p.user_id == user_id;
        let mut found: Vec<Post> = Vec::new();
        let mut k: usize = 0;
        assert(rows.take(0) =~= Seq::<PostView>::empty());
        assert(views(found@) =~= Seq::<PostView>::empty());
        while k < store.rows.len()
            invariant
                store@ == rows,
                k <= store.rows.len(),
                rows.len() == store.rows.len(),
                keep == |p: PostView| p.user_id == user_id,
                views(found@) == rows.take(k as int).filter(keep),
            decreases store.rows.len() - k,
        {
            proof {
                rows.lemma_take_succ_push(k as int);
                rows.take(k as int).lemma_filter_push(rows[k as int], keep);
            }
            if store.rows[k].user_id == user_id {
                let ghost so_far = views(found@);
                found.push(store.rows[k].clone());
                assert(views(found@) =~= so_far.push(rows[k as int]));
            }
            k += 1;
        }
        assert(rows.take(k as int) =~= rows);
        Ok(found)
    }

    /// The published posts of all users, in the order of their creation.
    /// No draft is among them.
    pub fn find_published_posts(store: &PostStore) -> (r: Result<Vec<Post>, ApiError>)
        ensures
            r matches Ok(posts) && {
                &&& views(posts@) == published(store@)
                &&& forall|i: int| 0 <= i < posts@.len() ==> (#[trigger] posts@[i])@.published
            },
    {
        let ghost rows = store@;
        let ghost keep = |p: PostView| p.published;
        let mut found: Vec<Post> = Vec::new();
        let mut k: usize = 0;
        assert(rows.take(0) =~= Seq::<PostView>::empty());
        assert(views(found@) =~= Seq::<PostView>::empty());
        while k < store.rows.len()
            invariant
                store@ == rows,
                k <= store.rows.len(),
                rows.len() == store.rows.len(),
                keep == |p: PostView| p.published,
                views(found@) == rows.take(k as int).filter(keep),
            decreases store.rows.len() - k,
        {
            proof {
                rows.lemma_take_succ_push(k as int);
                rows.take(k as int).lemma_filter_push(rows[k as int], keep);
            }
            if store.rows[k].published {
                let ghost so_far = views(found@);
                found.push(store.rows[k].clone());
                assert(views(found@) =~= so_far.push(rows[k as int]));
            }
            k += 1;
        }
        proof {
            assert(rows.take(k as int) =~= rows);
            lemma_feed_holds_no_draft(rows);
            assert forall|i: int| 0 <= i < found@.len() implies (#[trigger] found@[i])@.published by {
                assert(views(found@)[i] == found@[i]@);
            }
        }
        Ok(found)
    }

    /// Publishes the post `post_id`. A post that is published already stays
    /// so, and the call succeeds all the same. Fails, and leaves the table
    /// as it is, exactly when there is no such post.
    pub fn publish_post(store: &mut PostStore, post_id: Id) -> (r: Result<Post, ApiError>)
        requires
            old(store).wf(),
        ensures
            final(store).wf(),
            match r {
                Ok(post) => {
                    &&& find(old(store)@, post_id) matches Some(before)
                    &&& post@ == made_public(before)
                    &&& final(store)@ == with_published(old(store)@, post_id)
                },
                Err(e) => {
                    &&& find(old(store)@, post_id) is None
                    &&& final(store)@ == old(store)@
                    &&& e@ == post_not_found()
                },
            },
    {
        match store.position(post_id) {
            Some(k) => {
                let row = &store.rows[k];
                let next = Post {
                    id: row.id,
                    user_id: row.user_id,
                    title: row.title.clone(),
                    body: row.body.clone(),
                    published: true,
                    created_at: row.created_at,
                    updated_at: row.updated_at,
                };
                let copy = next.clone();
                store.replace(k, next);
                Ok(copy)
            },
            None => Err(ApiError::post_not_found()),
        }
    }
}

} // verus!
