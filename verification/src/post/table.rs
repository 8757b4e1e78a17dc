//! The table of posts, as mathematics: a sequence of rows in the order of
//! their creation, what each operation makes of it, and what holds of the
//! operations together.

use crate::clock::Timestamp;
use crate::ident::Id;
use vstd::prelude::*;

verus! {

/// A row of the table: what a post is.
pub ghost struct PostView {
    pub id: Id,
    pub user_id: Id,
    pub title: Seq<char>,
    pub body: Seq<char>,
    pub published: bool,
    pub created_at: Timestamp,
    pub updated_at: Option<Timestamp>,
}

/// What a request to create a post is: a title and a body.
pub ghost struct NewPostView {
    pub title: Seq<char>,
    pub body: Seq<char>,
}

/// What a partial update of a post is: a field that is `None` stays as it
/// is.
pub ghost struct PostPatchView {
    pub title: Option<Seq<char>>,
    pub body: Option<Seq<char>>,
}

/// No two rows share an identifier.
pub open spec fn unique_ids(rows: Seq<PostView>) -> bool {
    forall|i: int, j: int|
        0 <= i < j < rows.len() ==> (#[trigger] rows[i]).id != (#[trigger] rows[j]).id
}

/// Some row has the identifier `id`.
pub open spec fn has_post(rows: Seq<PostView>, id: Id) -> bool {
    exists|i: int| 0 <= i < rows.len() && (#[trigger] rows[i]).id == id
}

/// The place of a row with the identifier `id`, where there is one.
pub open spec fn index_of(rows: Seq<PostView>, id: Id) -> int {
    choose|i: int| 0 <= i < rows.len() && (#[trigger] rows[i]).id == id
}

/// The row with the identifier `id`, where there is one.
pub open spec fn find(rows: Seq<PostView>, id: Id) -> Option<PostView> {
    if has_post(rows, id) {
        Some(rows[index_of(rows, id)])
    } else {
        None
    }
}

/// The row of a post that `owner` creates from `new_post` under the
/// identifier `id` at the time `at`: unpublished, and never updated.
pub open spec fn created(new_post: NewPostView, owner: Id, id: Id, at: Timestamp) -> PostView {
    PostView {
        id,
        user_id: owner,
        title: new_post.title,
        body: new_post.body,
        published: false,
        created_at: at,
        updated_at: None,
    }
}

/// The row `p` after `patch` was applied to it at the time `at`: the fields
/// that the patch names are replaced, and `updated_at` is `at` in any case.
pub open spec fn patched(p: PostView, patch: PostPatchView, at: Timestamp) -> PostView {
    PostView {
        title: match patch.title {
            Some(title) => title,
            None => p.title,
        },
        body: match patch.body {
            Some(body) => body,
            None => p.body,
        },
        updated_at: Some(at),
        ..p
    }
}

/// The row `p`, published.
pub open spec fn made_public(p: PostView) -> PostView {
    PostView { published: true, ..p }
}

/// The table after `patch` was applied at the time `at` to the row with the
/// identifier `id`.
pub open spec fn with_patch(
    rows: Seq<PostView>,
    id: Id,
    patch: PostPatchView,
    at: Timestamp,
) -> Seq<PostView> {
    let k = index_of(rows, id);
    rows.update(k, patched(rows[k], patch, at))
}

/// The table after the row with the identifier `id` was published.
pub open spec fn with_published(rows: Seq<PostView>, id: Id) -> Seq<PostView> {
    let k = index_of(rows, id);
    rows.update(k, made_public(rows[k]))
}

/// The table without the row with the identifier `id`.
pub open spec fn without(rows: Seq<PostView>, id: Id) -> Seq<PostView> {
    rows.remove(index_of(rows, id))
}

/// The rows that belong to `owner`, in their order.
pub open spec fn owned_by(rows: Seq<PostView>, owner: Id) -> Seq<PostView> {
    rows.filter(|p: PostView| p.user_id == owner)
}

/// The rows that do not belong to `owner`, in their order.
pub open spec fn not_owned_by(rows: Seq<PostView>, owner: Id) -> Seq<PostView> {
    rows.filter(|p: PostView| p.user_id != owner)
}

/// The published rows, in their order.
pub open spec fn published(rows: Seq<PostView>) -> Seq<PostView> {
    rows.filter(|p: PostView| p.published)
}

/// In a table without repeated identifiers, the row that stands at a place
/// is the row that is found under its identifier.
pub proof fn lemma_find_at(rows: Seq<PostView>, k: int)
    requires
        unique_ids(rows),
        0 <= k < rows.len(),
    ensures
        has_post(rows, rows[k].id),
        index_of(rows, rows[k].id) == k,
        find(rows, rows[k].id) == Some(rows[k]),
{
    let found = index_of(rows, rows[k].id);
    assert(rows[found].id == rows[k].id);
}

/// A row under an identifier that is not taken may be added at the end: the
/// identifiers stay distinct.
pub proof fn lemma_push_keeps_unique_ids(rows: Seq<PostView>, row: PostView)
    requires
        unique_ids(rows),
        !has_post(rows, row.id),
    ensures
        unique_ids(rows.push(row)),
{
    let next = rows.push(row);
    assert forall|i: int, j: int| 0 <= i < j < next.len() implies (#[trigger] next[i]).id != (
    #[trigger] next[j]).id by {
        assert(next[i] == rows[i]);
        if j < rows.len() {
            assert(next[j] == rows[j]);
        }
    }
}

/// A row may be replaced by one with the same identifier: the identifiers
/// stay distinct.
pub proof fn lemma_update_keeps_unique_ids(rows: Seq<PostView>, k: int, row: PostView)
    requires
        unique_ids(rows),
        0 <= k < rows.len(),
        row.id == rows[k].id,
    ensures
        unique_ids(rows.update(k, row)),
{
    let next = rows.update(k, row);
    assert forall|i: int, j: int| 0 <= i < j < next.len() implies (#[trigger] next[i]).id != (
    #[trigger] next[j]).id by {
        assert(next[i].id == rows[i].id);
        assert(next[j].id == rows[j].id);
    }
}

/// A row may be taken out: the identifiers stay distinct, and the
/// identifier taken out is no longer in the table.
pub proof fn lemma_remove_keeps_unique_ids(rows: Seq<PostView>, k: int)
    requires
        unique_ids(rows),
        0 <= k < rows.len(),
    ensures
        unique_ids(rows.remove(k)),
        !has_post(rows.remove(k), rows[k].id),
{
    let rest = rows.remove(k);
    assert forall|i: int, j: int| 0 <= i < j < rest.len() implies (#[trigger] rest[i]).id != (
    #[trigger] rest[j]).id by {
        let a = if i < k { i } else { i + 1 };
        let b = if j < k { j } else { j + 1 };
        assert(rest[i] == rows[a] && rest[j] == rows[b]);
    }
    if has_post(rest, rows[k].id) {
        let m = index_of(rest, rows[k].id);
        let a = if m < k { m } else { m + 1 };
        assert(rest[m] == rows[a]);
    }
}

/// Rows may be filtered out: the identifiers stay distinct, and every row
/// that stays was a row of the table.
pub proof fn lemma_filter_keeps_unique_ids(rows: Seq<PostView>, keep: spec_fn(PostView) -> bool)
    requires
        unique_ids(rows),
    ensures
        unique_ids(rows.filter(keep)),
        forall|id: Id| has_post(rows.filter(keep), id) ==> has_post(rows, id),
    decreases rows.len(),
{
    reveal(Seq::filter);
    if rows.len() > 0 {
        let init = rows.drop_last();
        let last = rows.last();
        assert(unique_ids(init)) by {
            assert forall|i: int, j: int| 0 <= i < j < init.len() implies (#[trigger] init[i]).id
                != (#[trigger] init[j]).id by {
                assert(init[i] == rows[i] && init[j] == rows[j]);
            }
        }
        lemma_filter_keeps_unique_ids(init, keep);
        let kept = init.filter(keep);
        assert forall|id: Id| has_post(kept, id) implies has_post(rows, id) by {
            assert(has_post(init, id));
            let m = index_of(init, id);
            assert(rows[m].id == id);
        }
        if keep(last) {
            let all = kept.push(last);
            assert forall|i: int, j: int| 0 <= i < j < all.len() implies (#[trigger] all[i]).id
                != (#[trigger] all[j]).id by {
                if j == kept.len() {
                    assert(has_post(kept, kept[i].id));
                    assert(has_post(init, kept[i].id));
                    let m = index_of(init, kept[i].id);
                    assert(rows[m].id == kept[i].id);
                } else {
                    assert(all[i] == kept[i] && all[j] == kept[j]);
                }
            }
            assert forall|id: Id| has_post(all, id) implies has_post(rows, id) by {
                let m = index_of(all, id);
                if m == kept.len() {
                    assert(rows[rows.len() - 1].id == id);
                } else {
                    assert(has_post(kept, kept[m].id));
                }
            }
        }
    }
}

/// A post that was just created is found under its identifier, as it was
/// created: with the title and the body asked for, unpublished, and never
/// updated. Every other post is found as before.
pub proof fn lemma_find_after_create(
    rows: Seq<PostView>,
    new_post: NewPostView,
    owner: Id,
    id: Id,
    at: Timestamp,
    other: Id,
)
    requires
        unique_ids(rows),
        !has_post(rows, id),
        other != id,
    ensures
        find(rows.push(created(new_post, owner, id, at)), id) == Some(
            created(new_post, owner, id, at),
        ),
        created(new_post, owner, id, at).title == new_post.title,
        created(new_post, owner, id, at).body == new_post.body,
        !created(new_post, owner, id, at).published,
        created(new_post, owner, id, at).updated_at is None,
        find(rows.push(created(new_post, owner, id, at)), other) == find(rows, other),
{
    let post = created(new_post, owner, id, at);
    let next = rows.push(post);
    lemma_push_keeps_unique_ids(rows, post);
    assert(next[rows.len() as int] == post);
    lemma_find_at(next, rows.len() as int);
    if has_post(rows, other) {
        let m = index_of(rows, other);
        assert(next[m] == rows[m]);
        lemma_find_at(next, m);
    } else if has_post(next, other) {
        let m = index_of(next, other);
        assert(next[m] == rows[m]);
    }
}

/// A post that was deleted is no longer found, and every other post is
/// found as before.
pub proof fn lemma_find_after_delete(rows: Seq<PostView>, id: Id, other: Id)
    requires
        unique_ids(rows),
        has_post(rows, id),
        other != id,
    ensures
        find(without(rows, id), id) is None,
        find(without(rows, id), other) == find(rows, other),
{
    let k = index_of(rows, id);
    let rest = without(rows, id);
    lemma_remove_keeps_unique_ids(rows, k);
    if has_post(rows, other) {
        let m = index_of(rows, other);
        let a = if m < k { m } else { m - 1 };
        assert(rest[a] == rows[m]);
        lemma_find_at(rest, a);
    } else if has_post(rest, other) {
        let m = index_of(rest, other);
        let a = if m < k { m } else { m + 1 };
        assert(rest[m] == rows[a]);
    }
}

/// Publishing is idempotent. Once a post is published, it is found
/// published, it can be published again, and the table after the second
/// time is the table after the first.
pub proof fn lemma_publish_is_idempotent(rows: Seq<PostView>, id: Id)
    requires
        unique_ids(rows),
        has_post(rows, id),
    ensures
        unique_ids(with_published(rows, id)),
        find(with_published(rows, id), id) == Some(made_public(find(rows, id)->0)),
        find(with_published(rows, id), id)->0.published,
        with_published(with_published(rows, id), id) == with_published(rows, id),
{
    let k = index_of(rows, id);
    let once = with_published(rows, id);
    lemma_update_keeps_unique_ids(rows, k, made_public(rows[k]));
    assert(once[k] == made_public(rows[k]));
    lemma_find_at(once, k);
    assert(with_published(once, id) =~= once);
}

/// There is no way back to a draft: an update leaves a post published or
/// unpublished as it was, and publishing leaves it published. Neither
/// changes the post's identifier, its owner, or the time of its creation.
pub proof fn lemma_no_way_back_to_draft(p: PostView, patch: PostPatchView, at: Timestamp)
    ensures
        patched(p, patch, at).published == p.published,
        made_public(p).published,
        patched(p, patch, at).id == p.id && made_public(p).id == p.id,
        patched(p, patch, at).user_id == p.user_id && made_public(p).user_id == p.user_id,
        patched(p, patch, at).created_at == p.created_at && made_public(p).created_at
            == p.created_at,
{
}

/// The public feed holds published posts only, and each of them is a post
/// of the table. This is so of every table, and so after any sequence of
/// changes.
pub proof fn lemma_feed_holds_no_draft(rows: Seq<PostView>)
    ensures
        forall|i: int|
            0 <= i < published(rows).len() ==> {
                &&& (#[trigger] published(rows)[i]).published
                &&& rows.contains(published(rows)[i])
            },
{
    let keep = |p: PostView| p.published;
    assert forall|i: int| 0 <= i < published(rows).len() implies {
        &&& (#[trigger] published(rows)[i]).published
        &&& rows.contains(published(rows)[i])
    } by {
        rows.lemma_filter_pred(keep, i);
        assert(rows.filter(keep).contains(rows.filter(keep)[i]));
        rows.lemma_filter_contains_rev(keep, rows.filter(keep)[i]);
    }
}

/// The posts listed for a user are posts of that user, and each of them is
/// a post of the table.
pub proof fn lemma_listing_holds_own_posts(rows: Seq<PostView>, owner: Id)
    ensures
        forall|i: int|
            0 <= i < owned_by(rows, owner).len() ==> {
                &&& (#[trigger] owned_by(rows, owner)[i]).user_id == owner
                &&& rows.contains(owned_by(rows, owner)[i])
            },
{
    let keep = |p: PostView| p.user_id == owner;
    assert forall|i: int| 0 <= i < owned_by(rows, owner).len() implies {
        &&& (#[trigger] owned_by(rows, owner)[i]).user_id == owner
        &&& rows.contains(owned_by(rows, owner)[i])
    } by {
        rows.lemma_filter_pred(keep, i);
        assert(rows.filter(keep).contains(rows.filter(keep)[i]));
        rows.lemma_filter_contains_rev(keep, rows.filter(keep)[i]);
    }
}

/// After the posts of a user were taken out, none is listed for that user.
pub proof fn lemma_nothing_left_of_owner(rows: Seq<PostView>, owner: Id)
    ensures
        owned_by(not_owned_by(rows, owner), owner) == Seq::<PostView>::empty(),
{
    let rest = not_owned_by(rows, owner);
    let gone = |p: PostView| p.user_id != owner;
    let own = |p: PostView| p.user_id == owner;
    assert forall|i: int| 0 <= i < rest.len() implies !own(#[trigger] rest[i]) by {
        rows.lemma_filter_pred(gone, i);
    }
    assert(rest.all(|p: PostView| !own(p)));
    rest.lemma_all_neg_filter_empty(own);
    assert(owned_by(rest, owner) =~= Seq::<PostView>::empty());
}

/// An update at a time that lies after the post's creation, and after its
/// last update if there was one, leaves the post with that time as its
/// `updated_at`: strictly after `created_at`, and strictly after the
/// `updated_at` that it had.
pub proof fn lemma_update_moves_time_forward(
    rows: Seq<PostView>,
    id: Id,
    patch: PostPatchView,
    at: Timestamp,
)
    requires
        unique_ids(rows),
        has_post(rows, id),
        at.is_after(find(rows, id)->0.created_at),
        at.is_after_any(find(rows, id)->0.updated_at),
    ensures
        find(with_patch(rows, id, patch, at), id) == Some(patched(find(rows, id)->0, patch, at)),
        ({
            &&& find(with_patch(rows, id, patch, at), id) matches Some(after)
            &&& after.updated_at matches Some(stamp)
            &&& stamp.is_after(after.created_at)
            &&& stamp.is_after_any(find(rows, id)->0.updated_at)
        }),
{
    let k = index_of(rows, id);
    let next = with_patch(rows, id, patch, at);
    lemma_update_keeps_unique_ids(rows, k, patched(rows[k], patch, at));
    assert(next[k] == patched(rows[k], patch, at));
    lemma_find_at(next, k);
}

} // verus!
