//! What holds of the service whatever its state: laws that relate several
//! requests, each proved from the model.

use crate::handlers::{
    add_friend_outcome, admits, comments_response, delete_comment_outcome, delete_post_outcome,
    delete_user_outcome, edit_comment_outcome, edit_post_outcome, edit_user_outcome,
    get_comment_response, get_friends_response, get_post_response, get_user_response,
    login_response, new_comment_outcome, new_post_outcome, new_user_outcome, posts_response,
    remove_friend_outcome, users_response,
};
use crate::ident::{ID_LEN, all_alphanumeric, is_id};
use crate::model::{
    CommentEditView, CommentView, LoginView, PostEditView, PostView, SelfUserView, UserView,
};
use crate::preserve::{lemma_add_friend_wf, lemma_with_row, lemma_without_row};
use crate::response::{ErrorKind, ResponseView, plain_error, unauthorized};
use crate::state::{
    AccountRowView, FriendRowView, StoreView, flip, is_among, is_from, with_row, without_row,
};
use vstd::prelude::*;

verus! {

/// A registration under a free name and a free id answers with the new
/// account: it has that id, which is `ID_LEN` letters and digits, the name and
/// the credential of the request, and no friends.
pub proof fn law_registration_answers_with_the_account(
    s: StoreView,
    login: LoginView,
    id: Seq<char>,
)
    requires
        !s.has_name(login.name),
        !s.has_account(id),
        is_id(id),
    ensures
        new_user_outcome(s, Ok(login), id).1 == ResponseView::Return(
            SelfUserView {
                id,
                name: login.name,
                password: login.password,
                friends: Seq::empty(),
            },
        ),
        new_user_outcome(s, Ok(login), id).1->Return_0.id.len() == ID_LEN,
        all_alphanumeric(new_user_outcome(s, Ok(login), id).1->Return_0.id),
{
}

/// Once a name is registered, every further registration under that name is
/// refused with `Conflict`, whatever its credential and its id, and changes
/// nothing.
pub proof fn law_second_registration_conflicts(
    s: StoreView,
    first: LoginView,
    first_id: Seq<char>,
    second: LoginView,
    second_id: Seq<char>,
)
    requires
        first.name == second.name,
        new_user_outcome(s, Ok(first), first_id).1 is Return,
    ensures
        ({
            let registered = new_user_outcome(s, Ok(first), first_id).0;
            new_user_outcome(registered, Ok(second), second_id) == (
                registered,
                plain_error::<SelfUserView>(ErrorKind::Conflict, "User already exists"@),
            )
        }),
{
    let registered = new_user_outcome(s, Ok(first), first_id).0;
    let row = AccountRowView { id: first_id, name: first.name, password: first.password };
    assert(registered.accounts == s.accounts.push(row));
    assert(registered.account_names()[s.accounts.len() as int] == first.name);
}

/// The friends of `a` are the accounts to which a stored row leads from `a`.
pub proof fn lemma_friend_ids(s: StoreView, a: Seq<char>, b: Seq<char>)
    ensures
        s.friend_ids(a).contains(b) <==> s.are_friends(a, b),
{
    let row = FriendRowView { user_id: a, friend_id: b };
    let from_a = s.friends.filter(is_from(a));
    let ids = s.friend_ids(a);
    if s.are_friends(a, b) {
        let i = s.friends.index_of(row);
        s.friends.lemma_filter_contains(is_from(a), i);
        let j = from_a.index_of(row);
        assert(ids[j] == b);
    }
    if ids.contains(b) {
        let j = ids.index_of(b);
        s.friends.lemma_filter_pred(is_from(a), j);
        assert(from_a[j] == row);
        assert(from_a.contains(row));
        s.friends.lemma_filter_contains_rev(is_from(a), row);
    }
}

/// Friendship is mutual: in every state that the service reaches, `b` is a
/// friend of `a` exactly when `a` is a friend of `b`.
pub proof fn law_friendship_is_mutual(s: StoreView, a: Seq<char>, b: Seq<char>)
    requires
        s.wf(),
    ensures
        s.friend_ids(a).contains(b) <==> s.friend_ids(b).contains(a),
{
    lemma_friend_ids(s, a, b);
    lemma_friend_ids(s, b, a);
    let forth = FriendRowView { user_id: a, friend_id: b };
    if s.friends.contains(forth) {
        let i = s.friends.index_of(forth);
        assert(s.friends.contains(flip(s.friends[i])));
    }
    if s.friends.contains(flip(forth)) {
        let i = s.friends.index_of(flip(forth));
        assert(s.friends.contains(flip(s.friends[i])));
    }
}

/// Making friends twice is making friends once: the second request changes
/// nothing, and the friendship of two distinct accounts is then stored
/// exactly once in each direction, so that each is among the friends of the
/// other.
pub proof fn law_add_friend_is_idempotent(s: StoreView, a: Seq<char>, b: Seq<char>)
    requires
        s.wf(),
        a != b,
    ensures
        s.add_friend(a, b).add_friend(a, b) == s.add_friend(a, b),
        s.add_friend(a, b).friends.to_multiset().count(FriendRowView { user_id: a, friend_id: b })
            == 1,
        s.add_friend(a, b).friends.to_multiset().count(FriendRowView { user_id: b, friend_id: a })
            == 1,
        s.add_friend(a, b).friend_ids(a).contains(b),
        s.add_friend(a, b).friend_ids(b).contains(a),
        s.has_account(a) ==> add_friend_outcome(s, Some(a), b) == (
            s.add_friend(a, b),
            ResponseView::<UserView>::Success,
        ) && add_friend_outcome(s.add_friend(a, b), Some(a), b) == (
            s.add_friend(a, b),
            ResponseView::<UserView>::Success,
        ),
{
    let forth = FriendRowView { user_id: a, friend_id: b };
    let once = s.add_friend(a, b);
    lemma_with_row(s.friends, forth);
    lemma_with_row(with_row(s.friends, forth), flip(forth));
    lemma_add_friend_wf(s, a, b);
    assert(once.friends.contains(forth));
    assert(once.friends.contains(flip(forth)));
    once.friends.lemma_multiset_has_no_duplicates();
    once.friends.to_multiset_ensures();
    lemma_friend_ids(once, a, b);
    lemma_friend_ids(once, b, a);
    assert(once.account_ids() == s.account_ids());
}

/// There is a list, and the account `id` is on it.
pub open spec fn lists(found: Option<Seq<UserView>>, id: Seq<char>) -> bool {
    match found {
        Some(users) => exists|i: int| 0 <= i < users.len() && (#[trigger] users[i]).id == id,
        None => false,
    }
}

/// After `a` and `b` have made friends, and while both have their accounts,
/// the friends that are listed for each hold the account of the other.
pub proof fn law_friends_list_each_other(s: StoreView, a: Seq<char>, b: Seq<char>)
    requires
        s.wf(),
        a != b,
        s.has_account(a),
        s.has_account(b),
    ensures
        lists(s.add_friend(a, b).get_friends(a), b),
        lists(s.add_friend(a, b).get_friends(b), a),
{
    let once = s.add_friend(a, b);
    law_add_friend_is_idempotent(s, a, b);
    assert(once.account_ids() == s.account_ids());
    lemma_listed_friend(once, a, b);
    lemma_listed_friend(once, b, a);
}

/// A friend who has an account is among the accounts listed as friends.
proof fn lemma_listed_friend(s: StoreView, a: Seq<char>, b: Seq<char>)
    requires
        s.has_account(a),
        s.has_account(b),
        s.friend_ids(a).contains(b),
    ensures
        lists(s.get_friends(a), b),
{
    let among = is_among(s.friend_ids(a));
    let chosen = s.accounts.filter(among);
    let friends = s.public_profiles(chosen);
    let k = s.account_ids().index_of(b);
    assert(s.accounts[k].id == b);
    assert(among(s.accounts[k]));
    s.accounts.lemma_filter_contains(among, k);
    let j = chosen.index_of(s.accounts[k]);
    assert(0 <= j < friends.len() && friends[j].id == b);
    assert(lists(Some(friends), b));
}

/// Ending a friendship that does not exist changes nothing, and is answered
/// with `Success` to every admitted caller.
pub proof fn law_remove_absent_friend_is_noop(s: StoreView, a: Seq<char>, b: Seq<char>)
    requires
        !s.are_friends(a, b),
        !s.are_friends(b, a),
    ensures
        s.remove_friend(a, b) == s,
        s.has_account(a) ==> remove_friend_outcome(s, Some(a), b) == (
            s,
            ResponseView::<UserView>::Success,
        ),
{
    let forth = FriendRowView { user_id: a, friend_id: b };
    s.friends.index_of_first_ensures(forth);
    s.friends.index_of_first_ensures(flip(forth));
}

/// A login under a name that no account has, and a login under a name whose
/// accounts all have another credential, get one and the same answer:
/// `Unauthorized`, with a message that does not tell the two apart.
pub proof fn law_login_failures_look_alike(
    s: StoreView,
    unknown: LoginView,
    mistaken: LoginView,
)
    requires
        !s.has_name(unknown.name),
        s.has_name(mistaken.name),
        forall|i: int|
            0 <= i < s.accounts.len() && (#[trigger] s.accounts[i]).name == mistaken.name
                ==> s.accounts[i].password != mistaken.password,
    ensures
        login_response(s, Ok(unknown)) == plain_error::<SelfUserView>(
            ErrorKind::Unauthorized,
            "Invalid username or password"@,
        ),
        login_response(s, Ok(mistaken)) == login_response(s, Ok(unknown)),
{
    s.account_names().index_of_first_ensures(unknown.name);
    s.account_names().index_of_first_ensures(mistaken.name);
}

/// A post that was never stored is not found.
pub proof fn law_unknown_post_is_not_found(s: StoreView, key: Option<Seq<char>>, id: Seq<char>)
    requires
        admits(s, key),
        !s.post_ids().contains(id),
    ensures
        get_post_response(s, key, id) == plain_error::<PostView>(
            ErrorKind::NotFound,
            "Post not found"@,
        ),
        get_post_response(StoreView { posts: Seq::empty(), ..s }, key, id) == plain_error::<
            PostView,
        >(ErrorKind::NotFound, "Post not found"@),
{
    s.post_ids().index_of_first_ensures(id);
    let blank = StoreView { posts: Seq::empty(), ..s };
    blank.post_ids().index_of_first_ensures(id);
    assert(blank.account_ids() == s.account_ids());
}

/// A post that was stored under a free id comes back as it was sent, but for
/// the id, which is the one it was stored under, and the counters, which are
/// zero whatever the request carried.
pub proof fn law_stored_post_round_trips(
    s: StoreView,
    key: Option<Seq<char>>,
    draft: PostView,
    id: Seq<char>,
)
    requires
        admits(s, key),
        !s.post_ids().contains(id),
    ensures
        ({
            let stored = PostView { id, likes: 0, dislikes: 0, ..draft };
            let (next, answer) = new_post_outcome(s, key, Ok(draft), id);
            &&& answer == ResponseView::Return(stored)
            &&& get_post_response(next, key, id) == ResponseView::Return(stored)
        }),
{
    let stored = PostView { id, likes: 0, dislikes: 0, ..draft };
    let next = new_post_outcome(s, key, Ok(draft), id).0;
    assert(next.posts == s.posts.push(stored));
    assert(next.account_ids() == s.account_ids());
    assert(next.post_ids()[s.posts.len() as int] == id);
    assert forall|j: int| 0 <= j < s.posts.len() implies next.post_ids()[j] != id by {
        assert(s.post_ids()[j] == next.post_ids()[j]);
    }
    crate::seqs::lemma_first_index(next.post_ids(), id, s.posts.len() as int);
}

/// Ending a friendship ends it for both, whichever of the two asks, and
/// touches no other friendship.
pub proof fn law_remove_friend_ends_it_for_both(s: StoreView, a: Seq<char>, b: Seq<char>)
    requires
        s.wf(),
    ensures
        !s.remove_friend(a, b).are_friends(a, b),
        !s.remove_friend(a, b).are_friends(b, a),
        !s.remove_friend(b, a).are_friends(a, b),
        !s.remove_friend(b, a).are_friends(b, a),
        forall|c: Seq<char>, d: Seq<char>|
            !(c == a && d == b) && !(c == b && d == a) ==> (#[trigger] s.remove_friend(
                a,
                b,
            ).are_friends(c, d) <==> s.are_friends(c, d)),
{
    let forth = FriendRowView { user_id: a, friend_id: b };
    lemma_without_row(s.friends, forth);
    lemma_without_row(without_row(s.friends, forth), flip(forth));
    lemma_without_row(s.friends, flip(forth));
    lemma_without_row(without_row(s.friends, flip(forth)), forth);
}

/// Making friends touches no friendship but the one asked for.
pub proof fn law_add_friend_touches_no_other(s: StoreView, a: Seq<char>, b: Seq<char>)
    ensures
        forall|c: Seq<char>, d: Seq<char>|
            !(c == a && d == b) && !(c == b && d == a) ==> (#[trigger] s.add_friend(
                a,
                b,
            ).are_friends(c, d) <==> s.are_friends(c, d)),
{
    let forth = FriendRowView { user_id: a, friend_id: b };
    lemma_with_row(s.friends, forth);
    lemma_with_row(with_row(s.friends, forth), flip(forth));
}

/// A request that asks for a token and comes without an admitted one is
/// answered with `Unauthorized`, whatever else it carries, and changes
/// nothing.
pub proof fn law_unadmitted_requests_change_nothing(
    s: StoreView,
    key: Option<Seq<char>>,
    id: Seq<char>,
    new_id: Seq<char>,
    login: Result<LoginView, Seq<char>>,
    post: Result<PostView, Seq<char>>,
    post_edit: Result<PostEditView, Seq<char>>,
    comment: Result<CommentView, Seq<char>>,
    comment_edit: Result<CommentEditView, Seq<char>>,
)
    requires
        !admits(s, key),
    ensures
        users_response(s, key) == unauthorized::<Seq<UserView>>(),
        get_user_response(s, key, id) == unauthorized::<SelfUserView>(),
        edit_user_outcome(s, key, id, login) == (s, unauthorized::<SelfUserView>()),
        delete_user_outcome(s, key, id) == (s, unauthorized::<UserView>()),
        posts_response(s, key) == unauthorized::<Seq<PostView>>(),
        get_post_response(s, key, id) == unauthorized::<PostView>(),
        new_post_outcome(s, key, post, new_id) == (s, unauthorized::<PostView>()),
        edit_post_outcome(s, key, id, post_edit) == (s, unauthorized::<PostView>()),
        delete_post_outcome(s, key, id) == (s, unauthorized::<PostView>()),
        comments_response(s, key) == unauthorized::<Seq<CommentView>>(),
        get_comment_response(s, key, id) == unauthorized::<CommentView>(),
        new_comment_outcome(s, key, comment, new_id) == (s, unauthorized::<CommentView>()),
        edit_comment_outcome(s, key, id, comment_edit) == (s, unauthorized::<CommentView>()),
        delete_comment_outcome(s, key, id) == (s, unauthorized::<CommentView>()),
        add_friend_outcome(s, key, id) == (s, unauthorized::<UserView>()),
        remove_friend_outcome(s, key, id) == (s, unauthorized::<UserView>()),
        get_friends_response(s, key, id) == unauthorized::<Seq<UserView>>(),
{
}

} // verus!
