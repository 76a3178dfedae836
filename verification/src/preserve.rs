//! Every operation keeps the invariant of the state.

use crate::model::{CommentView, PostView};
use crate::state::{AccountRowView, FriendRowView, StoreView, flip, with_row, without_row};
use vstd::prelude::*;

verus! {

/// The empty state is well formed.
pub proof fn lemma_empty_wf()
    ensures
        StoreView::empty().wf(),
{
}

/// Registering an account keeps the invariant.
pub proof fn lemma_create_account_wf(
    s: StoreView,
    name: Seq<char>,
    password: Seq<char>,
    id: Seq<char>,
)
    requires
        s.wf(),
    ensures
        s.create_account(name, password, id).0.wf(),
{
    let t = s.create_account(name, password, id).0;
    if t != s {
        assert(t.account_ids() =~= s.account_ids().push(id));
    }
}

/// Editing an account keeps the invariant.
pub proof fn lemma_update_account_wf(
    s: StoreView,
    id: Seq<char>,
    name: Seq<char>,
    password: Seq<char>,
)
    requires
        s.wf(),
    ensures
        s.update_account(id, name, password).0.wf(),
{
    s.account_ids().index_of_first_ensures(id);
    let t = s.update_account(id, name, password).0;
    assert(t.account_ids() =~= s.account_ids());
}

/// Removing an account keeps the invariant.
pub proof fn lemma_delete_account_wf(s: StoreView, id: Seq<char>)
    requires
        s.wf(),
    ensures
        s.delete_account(id).wf(),
{
    s.account_ids().index_of_first_ensures(id);
    let t = s.delete_account(id);
    match s.account_ids().index_of_first(id) {
        Some(i) => {
            assert(t.account_ids() =~= s.account_ids().remove(i));
        },
        None => {},
    }
}

/// Storing a post keeps the invariant.
pub proof fn lemma_create_post_wf(s: StoreView, draft: PostView, id: Seq<char>)
    requires
        s.wf(),
    ensures
        s.create_post(draft, id).0.wf(),
{
    let t = s.create_post(draft, id).0;
    if t != s {
        assert(t.post_ids() =~= s.post_ids().push(id));
    }
}

/// Editing a post keeps the invariant.
pub proof fn lemma_update_post_wf(s: StoreView, id: Seq<char>, title: Seq<char>, body: Seq<char>)
    requires
        s.wf(),
    ensures
        s.update_post(id, title, body).0.wf(),
{
    s.post_ids().index_of_first_ensures(id);
    let t = s.update_post(id, title, body).0;
    assert(t.post_ids() =~= s.post_ids());
}

/// Removing a post keeps the invariant.
pub proof fn lemma_delete_post_wf(s: StoreView, id: Seq<char>)
    requires
        s.wf(),
    ensures
        s.delete_post(id).wf(),
{
    s.post_ids().index_of_first_ensures(id);
    let t = s.delete_post(id);
    match s.post_ids().index_of_first(id) {
        Some(i) => {
            assert(t.post_ids() =~= s.post_ids().remove(i));
        },
        None => {},
    }
}

/// Storing a comment keeps the invariant.
pub proof fn lemma_create_comment_wf(s: StoreView, draft: CommentView, id: Seq<char>)
    requires
        s.wf(),
    ensures
        s.create_comment(draft, id).0.wf(),
{
    let t = s.create_comment(draft, id).0;
    if t != s {
        assert(t.comment_ids() =~= s.comment_ids().push(id));
    }
}

/// Editing a comment keeps the invariant.
pub proof fn lemma_update_comment_wf(s: StoreView, id: Seq<char>, body: Seq<char>)
    requires
        s.wf(),
    ensures
        s.update_comment(id, body).0.wf(),
{
    s.comment_ids().index_of_first_ensures(id);
    let t = s.update_comment(id, body).0;
    assert(t.comment_ids() =~= s.comment_ids());
}

/// Removing a comment keeps the invariant.
pub proof fn lemma_delete_comment_wf(s: StoreView, id: Seq<char>)
    requires
        s.wf(),
    ensures
        s.delete_comment(id).wf(),
{
    s.comment_ids().index_of_first_ensures(id);
    let t = s.delete_comment(id);
    match s.comment_ids().index_of_first(id) {
        Some(i) => {
            assert(t.comment_ids() =~= s.comment_ids().remove(i));
        },
        None => {},
    }
}

/// What `with_row` holds: the old rows and the new one.
pub proof fn lemma_with_row(rows: Seq<FriendRowView>, row: FriendRowView)
    ensures
        forall|r: FriendRowView| #[trigger]
            with_row(rows, row).contains(r) <==> rows.contains(r) || r == row,
        rows.no_duplicates() ==> with_row(rows, row).no_duplicates(),
{
    let out = with_row(rows, row);
    assert forall|r: FriendRowView| #[trigger] out.contains(r) <==> rows.contains(r) || r
        == row by {
        if rows.contains(row) {
        } else {
            if rows.contains(r) {
                let i = rows.index_of(r);
                assert(out[i] == r);
            }
            if r == row {
                assert(out[rows.len() as int] == r);
            }
        }
    }
}

/// What `without_row` holds of rows that are stored once: the old rows but
/// the one taken out.
pub proof fn lemma_without_row(rows: Seq<FriendRowView>, row: FriendRowView)
    requires
        rows.no_duplicates(),
    ensures
        forall|r: FriendRowView| #[trigger]
            without_row(rows, row).contains(r) <==> rows.contains(r) && r != row,
        without_row(rows, row).no_duplicates(),
{
    rows.index_of_first_ensures(row);
    let out = without_row(rows, row);
    match rows.index_of_first(row) {
        Some(i) => {
            assert forall|r: FriendRowView| #[trigger] out.contains(r) <==> rows.contains(r) && r
                != row by {
                if out.contains(r) {
                    let k = out.index_of(r);
                    if k < i {
                        assert(rows[k] == r);
                    } else {
                        assert(rows[k + 1] == r);
                    }
                }
                if rows.contains(r) && r != row {
                    let k = rows.index_of(r);
                    if k < i {
                        assert(out[k] == r);
                    } else {
                        assert(out[k - 1] == r);
                    }
                }
            }
        },
        None => {},
    }
}

/// Making friends keeps the invariant.
pub proof fn lemma_add_friend_wf(s: StoreView, a: Seq<char>, b: Seq<char>)
    requires
        s.wf(),
    ensures
        s.add_friend(a, b).wf(),
{
    if a != b {
        let forth = FriendRowView { user_id: a, friend_id: b };
        let mid = with_row(s.friends, forth);
        let out = with_row(mid, flip(forth));
        lemma_with_row(s.friends, forth);
        lemma_with_row(mid, flip(forth));
        assert forall|i: int| 0 <= i < out.len() implies (#[trigger] out[i]).user_id
            != out[i].friend_id && out.contains(flip(out[i])) by {
            let r = out[i];
            assert(out.contains(r));
            if r != forth && r != flip(forth) {
                assert(s.friends.contains(r));
                let k = s.friends.index_of(r);
                assert(s.friends.contains(flip(s.friends[k])));
            }
        }
    }
}

/// Ending a friendship keeps the invariant.
pub proof fn lemma_remove_friend_wf(s: StoreView, a: Seq<char>, b: Seq<char>)
    requires
        s.wf(),
    ensures
        s.remove_friend(a, b).wf(),
{
    let forth = FriendRowView { user_id: a, friend_id: b };
    let mid = without_row(s.friends, forth);
    let out = without_row(mid, flip(forth));
    lemma_without_row(s.friends, forth);
    lemma_without_row(mid, flip(forth));
    assert forall|i: int| 0 <= i < out.len() implies (#[trigger] out[i]).user_id
        != out[i].friend_id && out.contains(flip(out[i])) by {
        let r = out[i];
        assert(out.contains(r));
        assert(s.friends.contains(r));
        let k = s.friends.index_of(r);
        assert(s.friends.contains(flip(s.friends[k])));
    }
}

} // verus!
