//! The mathematical state of the service: four relations, and what each
//! operation of the identity store, the content store and the friend graph
//! makes of them.

use crate::model::{CommentView, PostView, SelfUserView, UserView, public_view};
use crate::response::ErrorKind;
use vstd::prelude::*;

verus! {

/// One row of the accounts relation.
pub struct AccountRowView {
    pub id: Seq<char>,
    pub name: Seq<char>,
    pub password: Seq<char>,
}

/// One row of the friends relation: `friend_id` is a friend of `user_id`.
pub struct FriendRowView {
    pub user_id: Seq<char>,
    pub friend_id: Seq<char>,
}

/// The same friendship, seen from the other side.
pub open spec fn flip(row: FriendRowView) -> FriendRowView {
    FriendRowView { user_id: row.friend_id, friend_id: row.user_id }
}

/// The rows that start at the account `id`.
pub open spec fn is_from(id: Seq<char>) -> spec_fn(FriendRowView) -> bool {
    |row: FriendRowView| row.user_id == id
}

/// The accounts whose id is one of `ids`.
pub open spec fn is_among(ids: Seq<Seq<char>>) -> spec_fn(AccountRowView) -> bool {
    |row: AccountRowView| ids.contains(row.id)
}

/// Where the rows of `rows` that start at `id` lead, in their order.
pub open spec fn friend_ids_in(rows: Seq<FriendRowView>, id: Seq<char>) -> Seq<Seq<char>> {
    rows.filter(is_from(id)).map_values(|row: FriendRowView| row.friend_id)
}

/// `rows` with `row` appended unless it is there already.
pub open spec fn with_row(rows: Seq<FriendRowView>, row: FriendRowView) -> Seq<FriendRowView> {
    if rows.contains(row) {
        rows
    } else {
        rows.push(row)
    }
}

/// `rows` without the first occurrence of `row`.
pub open spec fn without_row(rows: Seq<FriendRowView>, row: FriendRowView) -> Seq<FriendRowView> {
    match rows.index_of_first(row) {
        Some(i) => rows.remove(i),
        None => rows,
    }
}

/// Each friendship is stored once in each direction, and nobody is their own
/// friend.
pub open spec fn friendships_sound(rows: Seq<FriendRowView>) -> bool {
    &&& rows.no_duplicates()
    &&& forall|i: int| 0 <= i < rows.len() ==> (#[trigger] rows[i]).user_id != rows[i].friend_id
    &&& forall|i: int| 0 <= i < rows.len() ==> rows.contains(flip(#[trigger] rows[i]))
}

/// The whole stored state.
pub struct StoreView {
    pub accounts: Seq<AccountRowView>,
    pub posts: Seq<PostView>,
    pub comments: Seq<CommentView>,
    pub friends: Seq<FriendRowView>,
}

impl StoreView {
    /// The state with no rows at all.
    pub open spec fn empty() -> StoreView {
        StoreView {
            accounts: Seq::empty(),
            posts: Seq::empty(),
            comments: Seq::empty(),
            friends: Seq::empty(),
        }
    }

    pub open spec fn account_ids(self) -> Seq<Seq<char>> {
        self.accounts.map_values(|row: AccountRowView| row.id)
    }

    pub open spec fn account_names(self) -> Seq<Seq<char>> {
        self.accounts.map_values(|row: AccountRowView| row.name)
    }

    pub open spec fn post_ids(self) -> Seq<Seq<char>> {
        self.posts.map_values(|post: PostView| post.id)
    }

    pub open spec fn comment_ids(self) -> Seq<Seq<char>> {
        self.comments.map_values(|comment: CommentView| comment.id)
    }

    /// What holds of every state that the service reaches: ids are keys, a
    /// friendship is stored once in each direction, and nobody is their own
    /// friend.
    pub open spec fn wf(self) -> bool {
        &&& self.account_ids().no_duplicates()
        &&& self.post_ids().no_duplicates()
        &&& self.comment_ids().no_duplicates()
        &&& friendships_sound(self.friends)
    }

    // ----- identity store -----

    /// Some account has the id `id`.
    pub open spec fn has_account(self, id: Seq<char>) -> bool {
        self.account_ids().contains(id)
    }

    /// Some account has the name `name`.
    pub open spec fn has_name(self, name: Seq<char>) -> bool {
        self.account_names().contains(name)
    }

    /// The ids of the friends of `id`, in the order in which they were made.
    pub open spec fn friend_ids(self, id: Seq<char>) -> Seq<Seq<char>> {
        friend_ids_in(self.friends, id)
    }

    /// The account of `row` as its owner sees it.
    pub open spec fn profile(self, row: AccountRowView) -> SelfUserView {
        SelfUserView {
            id: row.id,
            name: row.name,
            password: row.password,
            friends: self.friend_ids(row.id),
        }
    }

    /// The account with the id `id`.
    pub open spec fn get_account(self, id: Seq<char>) -> Option<SelfUserView> {
        match self.account_ids().index_of_first(id) {
            Some(i) => Some(self.profile(self.accounts[i])),
            None => None,
        }
    }

    /// The accounts of `rows` as everybody sees them.
    pub open spec fn public_profiles(self, rows: Seq<AccountRowView>) -> Seq<UserView> {
        rows.map_values(|row: AccountRowView| public_view(self.profile(row)))
    }

    /// Every account, without its credential.
    pub open spec fn list_accounts(self) -> Seq<UserView> {
        self.public_profiles(self.accounts)
    }

    /// Registers an account under the fresh id `id`: refused with `Conflict`
    /// where the name is taken, and with `InternalError` where the id is.
    pub open spec fn create_account(self, name: Seq<char>, password: Seq<char>, id: Seq<char>) -> (
        StoreView,
        Result<SelfUserView, ErrorKind>,
    ) {
        if self.has_name(name) {
            (self, Err(ErrorKind::Conflict))
        } else if self.has_account(id) {
            (self, Err(ErrorKind::InternalError))
        } else {
            (
                StoreView {
                    accounts: self.accounts.push(AccountRowView { id, name, password }),
                    ..self
                },
                Ok(SelfUserView { id, name, password, friends: Seq::empty() }),
            )
        }
    }

    /// Overwrites the name and the credential of the account `id`; the flag
    /// says whether there is such an account.
    pub open spec fn update_account(self, id: Seq<char>, name: Seq<char>, password: Seq<char>) -> (
        StoreView,
        bool,
    ) {
        match self.account_ids().index_of_first(id) {
            Some(i) => (
                StoreView {
                    accounts: self.accounts.update(i, AccountRowView { id, name, password }),
                    ..self
                },
                true,
            ),
            None => (self, false),
        }
    }

    /// Removes the account `id`, and nothing that refers to it.
    pub open spec fn delete_account(self, id: Seq<char>) -> StoreView {
        match self.account_ids().index_of_first(id) {
            Some(i) => StoreView { accounts: self.accounts.remove(i), ..self },
            None => self,
        }
    }

    /// The first account named `name`, if its credential is `password`.
    pub open spec fn login(self, name: Seq<char>, password: Seq<char>) -> Option<SelfUserView> {
        match self.account_names().index_of_first(name) {
            Some(i) => if self.accounts[i].password == password {
                Some(self.profile(self.accounts[i]))
            } else {
                None
            },
            None => None,
        }
    }

    // ----- content store -----

    /// The post with the id `id`.
    pub open spec fn get_post(self, id: Seq<char>) -> Option<PostView> {
        match self.post_ids().index_of_first(id) {
            Some(i) => Some(self.posts[i]),
            None => None,
        }
    }

    /// Stores `draft` under the fresh id `id` with both counters at zero,
    /// unless the id is taken.
    pub open spec fn create_post(self, draft: PostView, id: Seq<char>) -> (
        StoreView,
        Option<PostView>,
    ) {
        if self.post_ids().contains(id) {
            (self, None)
        } else {
            let post = PostView { id, likes: 0, dislikes: 0, ..draft };
            (StoreView { posts: self.posts.push(post), ..self }, Some(post))
        }
    }

    /// Overwrites the title and the body of the post `id`; the flag says
    /// whether there is such a post.
    pub open spec fn update_post(self, id: Seq<char>, title: Seq<char>, body: Seq<char>) -> (
        StoreView,
        bool,
    ) {
        match self.post_ids().index_of_first(id) {
            Some(i) => (
                StoreView {
                    posts: self.posts.update(i, PostView { title, body, ..self.posts[i] }),
                    ..self
                },
                true,
            ),
            None => (self, false),
        }
    }

    /// Removes the post `id`.
    pub open spec fn delete_post(self, id: Seq<char>) -> StoreView {
        match self.post_ids().index_of_first(id) {
            Some(i) => StoreView { posts: self.posts.remove(i), ..self },
            None => self,
        }
    }

    /// The comment with the id `id`.
    pub open spec fn get_comment(self, id: Seq<char>) -> Option<CommentView> {
        match self.comment_ids().index_of_first(id) {
            Some(i) => Some(self.comments[i]),
            None => None,
        }
    }

    /// Stores `draft` under the fresh id `id` with both counters at zero,
    /// unless the id is taken.
    pub open spec fn create_comment(self, draft: CommentView, id: Seq<char>) -> (
        StoreView,
        Option<CommentView>,
    ) {
        if self.comment_ids().contains(id) {
            (self, None)
        } else {
            let comment = CommentView { id, likes: 0, dislikes: 0, ..draft };
            (StoreView { comments: self.comments.push(comment), ..self }, Some(comment))
        }
    }

    /// Overwrites the body of the comment `id`; the flag says whether there
    /// is such a comment.
    pub open spec fn update_comment(self, id: Seq<char>, body: Seq<char>) -> (StoreView, bool) {
        match self.comment_ids().index_of_first(id) {
            Some(i) => (
                StoreView {
                    comments: self.comments.update(i, CommentView { body, ..self.comments[i] }),
                    ..self
                },
                true,
            ),
            None => (self, false),
        }
    }

    /// Removes the comment `id`.
    pub open spec fn delete_comment(self, id: Seq<char>) -> StoreView {
        match self.comment_ids().index_of_first(id) {
            Some(i) => StoreView { comments: self.comments.remove(i), ..self },
            None => self,
        }
    }

    // ----- friend graph -----

    /// `a` and `b` are friends.
    pub open spec fn are_friends(self, a: Seq<char>, b: Seq<char>) -> bool {
        self.friends.contains(FriendRowView { user_id: a, friend_id: b })
    }

    /// Makes `a` and `b` friends of each other. Nothing changes where they
    /// are friends already, or where `a` and `b` are the same account.
    pub open spec fn add_friend(self, a: Seq<char>, b: Seq<char>) -> StoreView {
        if a == b {
            self
        } else {
            let forth = FriendRowView { user_id: a, friend_id: b };
            StoreView { friends: with_row(with_row(self.friends, forth), flip(forth)), ..self }
        }
    }

    /// Ends the friendship of `a` and `b`, whichever side asks.
    pub open spec fn remove_friend(self, a: Seq<char>, b: Seq<char>) -> StoreView {
        let forth = FriendRowView { user_id: a, friend_id: b };
        StoreView { friends: without_row(without_row(self.friends, forth), flip(forth)), ..self }
    }

    /// The accounts that are friends of `id`, without their credentials, where
    /// `id` is an account.
    pub open spec fn get_friends(self, id: Seq<char>) -> Option<Seq<UserView>> {
        if self.has_account(id) {
            Some(self.public_profiles(self.accounts.filter(is_among(self.friend_ids(id)))))
        } else {
            None
        }
    }
}

} // verus!
