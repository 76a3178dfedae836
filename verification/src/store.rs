//! The store: the four relations held in memory, with the operations of the
//! identity store, the content store and the friend graph on them.

use crate::model::{Comment, CommentView, Post, PostView, SelfUser, SelfUserView, User};
use crate::preserve::{
    lemma_add_friend_wf, lemma_create_account_wf, lemma_create_comment_wf, lemma_create_post_wf,
    lemma_delete_account_wf, lemma_delete_comment_wf, lemma_delete_post_wf,
    lemma_remove_friend_wf, lemma_update_account_wf, lemma_update_comment_wf,
    lemma_update_post_wf,
};
use crate::response::ErrorKind;
use crate::seqs::{lemma_filter_empty, lemma_first_index, lemma_no_index};
use crate::state::{
    AccountRowView, FriendRowView, StoreView, flip, friend_ids_in, friendships_sound, is_among,
    is_from, with_row, without_row,
};
use vstd::prelude::*;

verus! {

/// One row of the accounts relation.
#[derive(Debug, PartialEq, Eq)]
pub struct AccountRow {
    pub id: String,
    pub name: String,
    pub password: String,
}

impl View for AccountRow {
    type V = AccountRowView;

    open spec fn view(&self) -> AccountRowView {
        AccountRowView { id: self.id@, name: self.name@, password: self.password@ }
    }
}

impl DeepView for AccountRow {
    type V = AccountRowView;

    open spec fn deep_view(&self) -> AccountRowView {
        self@
    }
}

/// One row of the friends relation.
#[derive(Debug, PartialEq, Eq)]
pub struct FriendRow {
    pub user_id: String,
    pub friend_id: String,
}

impl View for FriendRow {
    type V = FriendRowView;

    open spec fn view(&self) -> FriendRowView {
        FriendRowView { user_id: self.user_id@, friend_id: self.friend_id@ }
    }
}

impl DeepView for FriendRow {
    type V = FriendRowView;

    open spec fn deep_view(&self) -> FriendRowView {
        self@
    }
}

/// The stored state of the service.
pub struct Store {
    accounts: Vec<AccountRow>,
    posts: Vec<Post>,
    comments: Vec<Comment>,
    friends: Vec<FriendRow>,
}

impl View for Store {
    type V = StoreView;

    closed spec fn view(&self) -> StoreView {
        StoreView {
            accounts: self.accounts.deep_view(),
            posts: self.posts.deep_view(),
            comments: self.comments.deep_view(),
            friends: self.friends.deep_view(),
        }
    }
}

/// What `create_account` hands back, as a value of the model.
pub open spec fn account_result(r: Result<SelfUser, ErrorKind>) -> Result<SelfUserView, ErrorKind> {
    match r {
        Ok(user) => Ok(user@),
        Err(kind) => Err(kind),
    }
}

/// The state that is made of the given rows.
pub open spec fn rows_view(
    accounts: Vec<AccountRow>,
    posts: Vec<Post>,
    comments: Vec<Comment>,
    friends: Vec<FriendRow>,
) -> StoreView {
    StoreView {
        accounts: accounts.deep_view(),
        posts: posts.deep_view(),
        comments: comments.deep_view(),
        friends: friends.deep_view(),
    }
}

impl Store {
    /// The store keeps its invariant.
    pub open spec fn wf(&self) -> bool {
        self@.wf()
    }

    /// A store with no rows.
    pub fn new() -> (store: Store)
        ensures
            store.wf(),
            store@ == StoreView::empty(),
    {
        let store = Store {
            accounts: Vec::new(),
            posts: Vec::new(),
            comments: Vec::new(),
            friends: Vec::new(),
        };
        assert(store@.accounts =~= Seq::empty());
        assert(store@.posts =~= Seq::empty());
        assert(store@.comments =~= Seq::empty());
        assert(store@.friends =~= Seq::empty());
        store
    }

    /// Where the account `id` stands in the relation.
    fn find_account(&self, id: &String) -> (at: Option<usize>)
        ensures
            self@.account_ids().index_of_first(id@) == match at {
                Some(i) => Some(i as int),
                None => None,
            },
            at matches Some(i) ==> i < self.accounts.len(),
    {
        let mut i: usize = 0;
        while i < self.accounts.len()
            invariant
                i <= self.accounts.len(),
                forall|j: int| 0 <= j < i ==> self@.account_ids()[j] != id@,
            decreases self.accounts.len() - i,
        {
            if self.accounts[i].id == *id {
                proof {
                    lemma_first_index(self@.account_ids(), id@, i as int);
                }
                return Some(i);
            }
            i += 1;
        }
        proof {
            lemma_no_index(self@.account_ids(), id@);
        }
        None
    }

    /// Whether some account has the id `id`.
    pub fn account_exists(&self, id: &String) -> (found: bool)
        ensures
            found == self@.has_account(id@),
    {
        proof {
            self@.account_ids().index_of_first_ensures(id@);
        }
        self.find_account(id).is_some()
    }
    /// The ids of the friends of `id`.
    pub fn friend_ids(&self, id: &String) -> (ids: Vec<String>)
        ensures
            ids.deep_view() == self@.friend_ids(id@),
    {
        let mut ids: Vec<String> = Vec::new();
        let mut i: usize = 0;
        proof {
            lemma_filter_empty(is_from(id@));
            assert(self@.friends.take(0) =~= Seq::empty());
            assert(ids.deep_view() =~= friend_ids_in(self@.friends.take(0), id@));
        }
        while i < self.friends.len()
            invariant
                i <= self.friends.len(),
                ids.deep_view() == friend_ids_in(self@.friends.take(i as int), id@),
            decreases self.friends.len() - i,
        {
            proof {
                let seen = self@.friends.take(i as int);
                let row = self@.friends[i as int];
                seen.lemma_filter_push(row, is_from(id@));
                assert(self@.friends.take(i + 1) =~= seen.push(row));
            }
            if self.friends[i].user_id == *id {
                let ghost before = ids.deep_view();
                ids.push(self.friends[i].friend_id.clone());
                assert(ids.deep_view() =~= before.push(self.friends[i as int].friend_id@));
                assert(ids.deep_view() =~= friend_ids_in(self@.friends.take(i + 1), id@));
            }
            i += 1;
        }
        assert(self@.friends.take(i as int) =~= self@.friends);
        ids
    }

    /// The account in row `i` as its owner sees it.
    fn profile_at(&self, i: usize) -> (user: SelfUser)
        requires
            i < self.accounts.len(),
        ensures
            user@ == self@.profile(self@.accounts[i as int]),
    {
        let row = &self.accounts[i];
        SelfUser {
            id: row.id.clone(),
            name: row.name.clone(),
            password: row.password.clone(),
            friends: self.friend_ids(&row.id),
        }
    }

    /// The account with the id `id`, if there is one.
    pub fn get_account(&self, id: &String) -> (user: Option<SelfUser>)
        ensures
            user.deep_view() == self@.get_account(id@),
    {
        match self.find_account(id) {
            Some(i) => Some(self.profile_at(i)),
            None => None,
        }
    }

    /// Every account, without its credential.
    pub fn list_accounts(&self) -> (users: Vec<User>)
        ensures
            users.deep_view() == self@.list_accounts(),
    {
        let mut users: Vec<User> = Vec::new();
        let mut i: usize = 0;
        while i < self.accounts.len()
            invariant
                i <= self.accounts.len(),
                users.deep_view() =~= self@.public_profiles(self@.accounts.take(i as int)),
            decreases self.accounts.len() - i,
        {
            let ghost before = users.deep_view();
            users.push(User::from(self.profile_at(i)));
            assert(users.deep_view() =~= before.push(users[i as int]@));
            i += 1;
        }
        assert(self@.accounts.take(i as int) =~= self@.accounts);
        users
    }
    // ----- identity store -----

    /// Where the first account named `name` stands in the relation.
    fn find_name(&self, name: &String) -> (at: Option<usize>)
        ensures
            self@.account_names().index_of_first(name@) == match at {
                Some(i) => Some(i as int),
                None => None,
            },
            at matches Some(i) ==> i < self.accounts.len(),
    {
        let mut i: usize = 0;
        while i < self.accounts.len()
            invariant
                i <= self.accounts.len(),
                forall|j: int| 0 <= j < i ==> self@.account_names()[j] != name@,
            decreases self.accounts.len() - i,
        {
            if self.accounts[i].name == *name {
                proof {
                    lemma_first_index(self@.account_names(), name@, i as int);
                }
                return Some(i);
            }
            i += 1;
        }
        proof {
            lemma_no_index(self@.account_names(), name@);
        }
        None
    }

    /// Registers an account under the id `id`, with no friends. The name must
    /// be free (`Conflict`), and so must the id (`InternalError`).
    pub fn create_account(&mut self, name: String, password: String, id: String) -> (created:
        Result<SelfUser, ErrorKind>)
        requires
            old(self).wf(),
        ensures
            final(self).wf(),
            final(self)@ == old(self)@.create_account(name@, password@, id@).0,
            account_result(created) == old(self)@.create_account(name@, password@, id@).1,
    {
        proof {
            lemma_create_account_wf(self@, name@, password@, id@);
            self@.account_names().index_of_first_ensures(name@);
            self@.account_ids().index_of_first_ensures(id@);
        }
        if self.find_name(&name).is_some() {
            return Err(ErrorKind::Conflict);
        }
        if self.find_account(&id).is_some() {
            return Err(ErrorKind::InternalError);
        }
        let user = SelfUser {
            id: id.clone(),
            name: name.clone(),
            password: password.clone(),
            friends: Vec::new(),
        };
        let ghost before = self.accounts.deep_view();
        self.accounts.push(AccountRow { id, name, password });
        assert(self.accounts.deep_view() =~= before.push(
            AccountRowView { id: id@, name: name@, password: password@ },
        ));
        assert(user@.friends =~= Seq::empty());
        Ok(user)
    }

    /// Overwrites the name and the credential of the account `id`, and says
    /// whether there is such an account.
    pub fn update_account(&mut self, id: &String, name: String, password: String) -> (found: bool)
        requires
            old(self).wf(),
        ensures
            final(self).wf(),
            final(self)@ == old(self)@.update_account(id@, name@, password@).0,
            found == old(self)@.update_account(id@, name@, password@).1,
    {
        proof {
            lemma_update_account_wf(self@, id@, name@, password@);
        }
        match self.find_account(id) {
            Some(i) => {
                let ghost before = self.accounts.deep_view();
                self.accounts[i] = AccountRow { id: id.clone(), name, password };
                assert(self.accounts.deep_view() =~= before.update(
                    i as int,
                    AccountRowView { id: id@, name: name@, password: password@ },
                ));
                true
            },
            None => false,
        }
    }

    /// Removes the account `id` if there is one. Its posts, its comments and
    /// its friendships stay.
    pub fn delete_account(&mut self, id: &String)
        requires
            old(self).wf(),
        ensures
            final(self).wf(),
            final(self)@ == old(self)@.delete_account(id@),
    {
        proof {
            lemma_delete_account_wf(self@, id@);
        }
        match self.find_account(id) {
            Some(i) => {
                let ghost before = self.accounts.deep_view();
                self.accounts.remove(i);
                assert(self.accounts.deep_view() =~= before.remove(i as int));
            },
            None => {},
        }
    }

    /// The first account named `name`, provided that `password` is its
    /// credential.
    pub fn login(&self, name: &String, password: &String) -> (user: Option<SelfUser>)
        ensures
            user.deep_view() == self@.login(name@, password@),
    {
        match self.find_name(name) {
            Some(i) => {
                if self.accounts[i].password == *password {
                    Some(self.profile_at(i))
                } else {
                    None
                }
            },
            None => None,
        }
    }
    // ----- content store -----

    /// Where the post `id` stands in the relation.
    fn find_post(&self, id: &String) -> (at: Option<usize>)
        ensures
            self@.post_ids().index_of_first(id@) == match at {
                Some(i) => Some(i as int),
                None => None,
            },
            at matches Some(i) ==> i < self.posts.len(),
    {
        let mut i: usize = 0;
        while i < self.posts.len()
            invariant
                i <= self.posts.len(),
                forall|j: int| 0 <= j < i ==> self@.post_ids()[j] != id@,
            decreases self.posts.len() - i,
        {
            if self.posts[i].id == *id {
                proof {
                    lemma_first_index(self@.post_ids(), id@, i as int);
                }
                return Some(i);
            }
            i += 1;
        }
        proof {
            lemma_no_index(self@.post_ids(), id@);
        }
        None
    }

    /// Every post, oldest first.
    pub fn list_posts(&self) -> (posts: Vec<Post>)
        ensures
            posts.deep_view() == self@.posts,
    {
        let mut posts: Vec<Post> = Vec::new();
        let mut i: usize = 0;
        while i < self.posts.len()
            invariant
                i <= self.posts.len(),
                posts.deep_view() =~= self@.posts.take(i as int),
            decreases self.posts.len() - i,
        {
            let ghost before = posts.deep_view();
            posts.push(self.posts[i].clone());
            assert(posts.deep_view() =~= before.push(posts[i as int]@));
            i += 1;
        }
        assert(self@.posts.take(i as int) =~= self@.posts);
        posts
    }

    /// The post with the id `id`, if there is one.
    pub fn get_post(&self, id: &String) -> (post: Option<Post>)
        ensures
            post.deep_view() == self@.get_post(id@),
    {
        match self.find_post(id) {
            Some(i) => Some(self.posts[i].clone()),
            None => None,
        }
    }

    /// Stores `draft` under the id `id`, with both counters at zero, and hands
    /// back what was stored; `None`, and nothing stored, where the id is taken.
    pub fn create_post(&mut self, draft: Post, id: String) -> (created: Option<Post>)
        requires
            old(self).wf(),
        ensures
            final(self).wf(),
            final(self)@ == old(self)@.create_post(draft@, id@).0,
            created.deep_view() == old(self)@.create_post(draft@, id@).1,
    {
        proof {
            lemma_create_post_wf(self@, draft@, id@);
            self@.post_ids().index_of_first_ensures(id@);
        }
        if self.find_post(&id).is_some() {
            return None;
        }
        let post = Post {
            id,
            user_id: draft.user_id,
            title: draft.title,
            body: draft.body,
            date: draft.date,
            likes: 0,
            dislikes: 0,
        };
        let ghost before = self.posts.deep_view();
        self.posts.push(post.clone());
        assert(self.posts.deep_view() =~= before.push(post@));
        Some(post)
    }

    /// Overwrites the title and the body of the post `id`, and says whether
    /// there is such a post.
    pub fn update_post(&mut self, id: &String, title: String, body: String) -> (found: bool)
        requires
            old(self).wf(),
        ensures
            final(self).wf(),
            final(self)@ == old(self)@.update_post(id@, title@, body@).0,
            found == old(self)@.update_post(id@, title@, body@).1,
    {
        proof {
            lemma_update_post_wf(self@, id@, title@, body@);
        }
        match self.find_post(id) {
            Some(i) => {
                let ghost before = self.posts.deep_view();
                let old_post = &self.posts[i];
                let post = Post {
                    id: old_post.id.clone(),
                    user_id: old_post.user_id.clone(),
                    title,
                    body,
                    date: old_post.date.clone(),
                    likes: old_post.likes,
                    dislikes: old_post.dislikes,
                };
                self.posts[i] = post;
                assert(self.posts.deep_view() =~= before.update(
                    i as int,
                    PostView { title: title@, body: body@, ..before[i as int] },
                ));
                true
            },
            None => false,
        }
    }

    /// Removes the post `id` if there is one.
    pub fn delete_post(&mut self, id: &String)
        requires
            old(self).wf(),
        ensures
            final(self).wf(),
            final(self)@ == old(self)@.delete_post(id@),
    {
        proof {
            lemma_delete_post_wf(self@, id@);
        }
        match self.find_post(id) {
            Some(i) => {
                let ghost before = self.posts.deep_view();
                self.posts.remove(i);
                assert(self.posts.deep_view() =~= before.remove(i as int));
            },
            None => {},
        }
    }

    /// Where the comment `id` stands in the relation.
    fn find_comment(&self, id: &String) -> (at: Option<usize>)
        ensures
            self@.comment_ids().index_of_first(id@) == match at {
                Some(i) => Some(i as int),
                None => None,
            },
            at matches Some(i) ==> i < self.comments.len(),
    {
        let mut i: usize = 0;
        while i < self.comments.len()
            invariant
                i <= self.comments.len(),
                forall|j: int| 0 <= j < i ==> self@.comment_ids()[j] != id@,
            decreases self.comments.len() - i,
        {
            if self.comments[i].id == *id {
                proof {
                    lemma_first_index(self@.comment_ids(), id@, i as int);
                }
                return Some(i);
            }
            i += 1;
        }
        proof {
            lemma_no_index(self@.comment_ids(), id@);
        }
        None
    }

    /// Every comment, oldest first.
    pub fn list_comments(&self) -> (comments: Vec<Comment>)
        ensures
            comments.deep_view() == self@.comments,
    {
        let mut comments: Vec<Comment> = Vec::new();
        let mut i: usize = 0;
        while i < self.comments.len()
            invariant
                i <= self.comments.len(),
                comments.deep_view() =~= self@.comments.take(i as int),
            decreases self.comments.len() - i,
        {
            let ghost before = comments.deep_view();
            comments.push(self.comments[i].clone());
            assert(comments.deep_view() =~= before.push(comments[i as int]@));
            i += 1;
        }
        assert(self@.comments.take(i as int) =~= self@.comments);
        comments
    }

    /// The comment with the id `id`, if there is one.
    pub fn get_comment(&self, id: &String) -> (comment: Option<Comment>)
        ensures
            comment.deep_view() == self@.get_comment(id@),
    {
        match self.find_comment(id) {
            Some(i) => Some(self.comments[i].clone()),
            None => None,
        }
    }

    /// Stores `draft` under the id `id`, with both counters at zero, and hands
    /// back what was stored; `None`, and nothing stored, where the id is taken.
    pub fn create_comment(&mut self, draft: Comment, id: String) -> (created: Option<Comment>)
        requires
            old(self).wf(),
        ensures
            final(self).wf(),
            final(self)@ == old(self)@.create_comment(draft@, id@).0,
            created.deep_view() == old(self)@.create_comment(draft@, id@).1,
    {
        proof {
            lemma_create_comment_wf(self@, draft@, id@);
            self@.comment_ids().index_of_first_ensures(id@);
        }
        if self.find_comment(&id).is_some() {
            return None;
        }
        let comment = Comment {
            id,
            user_id: draft.user_id,
            post_id: draft.post_id,
            body: draft.body,
            date: draft.date,
            likes: 0,
            dislikes: 0,
        };
        let ghost before = self.comments.deep_view();
        self.comments.push(comment.clone());
        assert(self.comments.deep_view() =~= before.push(comment@));
        Some(comment)
    }

    /// Overwrites the body of the comment `id`, and says whether there is
    /// such a comment.
    pub fn update_comment(&mut self, id: &String, body: String) -> (found: bool)
        requires
            old(self).wf(),
        ensures
            final(self).wf(),
            final(self)@ == old(self)@.update_comment(id@, body@).0,
            found == old(self)@.update_comment(id@, body@).1,
    {
        proof {
            lemma_update_comment_wf(self@, id@, body@);
        }
        match self.find_comment(id) {
            Some(i) => {
                let ghost before = self.comments.deep_view();
                let old_comment = &self.comments[i];
                let comment = Comment {
                    id: old_comment.id.clone(),
                    user_id: old_comment.user_id.clone(),
                    post_id: old_comment.post_id.clone(),
                    body,
                    date: old_comment.date.clone(),
                    likes: old_comment.likes,
                    dislikes: old_comment.dislikes,
                };
                self.comments[i] = comment;
                assert(self.comments.deep_view() =~= before.update(
                    i as int,
                    CommentView { body: body@, ..before[i as int] },
                ));
                true
            },
            None => false,
        }
    }

    /// Removes the comment `id` if there is one.
    pub fn delete_comment(&mut self, id: &String)
        requires
            old(self).wf(),
        ensures
            final(self).wf(),
            final(self)@ == old(self)@.delete_comment(id@),
    {
        proof {
            lemma_delete_comment_wf(self@, id@);
        }
        match self.find_comment(id) {
            Some(i) => {
                let ghost before = self.comments.deep_view();
                self.comments.remove(i);
                assert(self.comments.deep_view() =~= before.remove(i as int));
            },
            None => {},
        }
    }

    // ----- friend graph -----

    /// Where the row from `a` to `b` stands in the relation.
    fn find_friend(&self, a: &String, b: &String) -> (at: Option<usize>)
        ensures
            self@.friends.index_of_first(FriendRowView { user_id: a@, friend_id: b@ }) == match at {
                Some(i) => Some(i as int),
                None => None,
            },
            at matches Some(i) ==> i < self.friends.len(),
    {
        let ghost row = FriendRowView { user_id: a@, friend_id: b@ };
        let mut i: usize = 0;
        while i < self.friends.len()
            invariant
                i <= self.friends.len(),
                row == (FriendRowView { user_id: a@, friend_id: b@ }),
                forall|j: int| 0 <= j < i ==> self@.friends[j] != row,
            decreases self.friends.len() - i,
        {
            if self.friends[i].user_id == *a && self.friends[i].friend_id == *b {
                proof {
                    lemma_first_index(self@.friends, row, i as int);
                }
                return Some(i);
            }
            i += 1;
        }
        proof {
            lemma_no_index(self@.friends, row);
        }
        None
    }

    /// Whether `a` and `b` are friends.
    pub fn are_friends(&self, a: &String, b: &String) -> (yes: bool)
        ensures
            yes == self@.are_friends(a@, b@),
    {
        proof {
            self@.friends.index_of_first_ensures(FriendRowView { user_id: a@, friend_id: b@ });
        }
        self.find_friend(a, b).is_some()
    }

    /// Stores the row from `a` to `b` unless it is there.
    fn insert_friend(&mut self, a: &String, b: &String)
        ensures
            final(self)@ == (StoreView {
                friends: with_row(old(self)@.friends, FriendRowView { user_id: a@, friend_id: b@ }),
                ..old(self)@
            }),
    {
        proof {
            self@.friends.index_of_first_ensures(FriendRowView { user_id: a@, friend_id: b@ });
        }
        if self.find_friend(a, b).is_none() {
            let ghost before = self.friends.deep_view();
            self.friends.push(FriendRow { user_id: a.clone(), friend_id: b.clone() });
            assert(self.friends.deep_view() =~= before.push(
                FriendRowView { user_id: a@, friend_id: b@ },
            ));
        }
    }

    /// Takes out the row from `a` to `b` if it is there.
    fn erase_friend(&mut self, a: &String, b: &String)
        ensures
            final(self)@ == (StoreView {
                friends: without_row(
                    old(self)@.friends,
                    FriendRowView { user_id: a@, friend_id: b@ },
                ),
                ..old(self)@
            }),
    {
        match self.find_friend(a, b) {
            Some(i) => {
                let ghost before = self.friends.deep_view();
                self.friends.remove(i);
                assert(self.friends.deep_view() =~= before.remove(i as int));
            },
            None => {},
        }
    }

    /// Makes `a` and `b` friends of each other; nothing changes where they
    /// are already. Nobody is their own friend: for `a` equal to `b` nothing
    /// is stored, and the result is `false`.
    pub fn add_friend(&mut self, a: &String, b: &String) -> (distinct: bool)
        requires
            old(self).wf(),
        ensures
            final(self).wf(),
            final(self)@ == old(self)@.add_friend(a@, b@),
            distinct == (a@ != b@),
    {
        proof {
            lemma_add_friend_wf(self@, a@, b@);
        }
        if *a == *b {
            return false;
        }
        self.insert_friend(a, b);
        self.insert_friend(b, a);
        true
    }

    /// Ends the friendship of `a` and `b`, whichever of them asks; nothing
    /// changes where they are no friends.
    pub fn remove_friend(&mut self, a: &String, b: &String)
        requires
            old(self).wf(),
        ensures
            final(self).wf(),
            final(self)@ == old(self)@.remove_friend(a@, b@),
    {
        proof {
            lemma_remove_friend_wf(self@, a@, b@);
        }
        self.erase_friend(a, b);
        self.erase_friend(b, a);
    }

    /// Whether `id` is one of `ids`.
    fn is_listed(ids: &Vec<String>, id: &String) -> (found: bool)
        ensures
            found == ids.deep_view().contains(id@),
    {
        let mut i: usize = 0;
        while i < ids.len()
            invariant
                i <= ids.len(),
                forall|j: int| 0 <= j < i ==> ids.deep_view()[j] != id@,
            decreases ids.len() - i,
        {
            if ids[i] == *id {
                assert(ids.deep_view()[i as int] == id@);
                return true;
            }
            i += 1;
        }
        false
    }

    /// The accounts that are friends of `id`, without their credentials, in
    /// the order of the accounts relation; `None` where `id` is no account.
    pub fn get_friends(&self, id: &String) -> (users: Option<Vec<User>>)
        ensures
            users.deep_view() == self@.get_friends(id@),
    {
        if !self.account_exists(id) {
            return None;
        }
        let ids = self.friend_ids(id);
        let ghost among = is_among(ids.deep_view());
        let mut users: Vec<User> = Vec::new();
        let mut i: usize = 0;
        proof {
            lemma_filter_empty(among);
            assert(self@.accounts.take(0) =~= Seq::empty());
        }
        while i < self.accounts.len()
            invariant
                i <= self.accounts.len(),
                among == is_among(ids.deep_view()),
                users.deep_view() =~= self@.public_profiles(
                    self@.accounts.take(i as int).filter(among),
                ),
            decreases self.accounts.len() - i,
        {
            proof {
                let seen = self@.accounts.take(i as int);
                seen.lemma_filter_push(self@.accounts[i as int], among);
                assert(self@.accounts.take(i + 1) =~= seen.push(self@.accounts[i as int]));
            }
            if Self::is_listed(&ids, &self.accounts[i].id) {
                let ghost before = users.deep_view();
                users.push(User::from(self.profile_at(i)));
                assert(users.deep_view() =~= before.push(users[users.len() - 1]@));
            }
            i += 1;
        }
        assert(self@.accounts.take(i as int) =~= self@.accounts);
        Some(users)
    }
    // ----- rows in, rows out -----

    /// The accounts relation, row by row.
    pub fn account_rows(&self) -> (rows: Vec<AccountRow>)
        ensures
            rows.deep_view() == self@.accounts,
    {
        let mut rows: Vec<AccountRow> = Vec::new();
        let mut i: usize = 0;
        while i < self.accounts.len()
            invariant
                i <= self.accounts.len(),
                rows.deep_view() =~= self@.accounts.take(i as int),
            decreases self.accounts.len() - i,
        {
            let ghost before = rows.deep_view();
            let row = &self.accounts[i];
            rows.push(
                AccountRow {
                    id: row.id.clone(),
                    name: row.name.clone(),
                    password: row.password.clone(),
                },
            );
            assert(rows.deep_view() =~= before.push(rows[i as int]@));
            i += 1;
        }
        assert(self@.accounts.take(i as int) =~= self@.accounts);
        rows
    }

    /// The friends relation, row by row.
    pub fn friend_rows(&self) -> (rows: Vec<FriendRow>)
        ensures
            rows.deep_view() == self@.friends,
    {
        let mut rows: Vec<FriendRow> = Vec::new();
        let mut i: usize = 0;
        while i < self.friends.len()
            invariant
                i <= self.friends.len(),
                rows.deep_view() =~= self@.friends.take(i as int),
            decreases self.friends.len() - i,
        {
            let ghost before = rows.deep_view();
            let row = &self.friends[i];
            rows.push(FriendRow { user_id: row.user_id.clone(), friend_id: row.friend_id.clone() });
            assert(rows.deep_view() =~= before.push(rows[i as int]@));
            i += 1;
        }
        assert(self@.friends.take(i as int) =~= self@.friends);
        rows
    }

    /// Whether no id occurs twice among the accounts, the posts and the
    /// comments of the store.
    fn keys_are_distinct(&self) -> (ok: bool)
        ensures
            ok == (self@.account_ids().no_duplicates() && self@.post_ids().no_duplicates()
                && self@.comment_ids().no_duplicates()),
    {
        let mut i: usize = 0;
        while i < self.accounts.len()
            invariant
                i <= self.accounts.len(),
                forall|p: int, q: int|
                    0 <= p < q < i ==> self@.account_ids()[p] != self@.account_ids()[q],
            decreases self.accounts.len() - i,
        {
            let mut j: usize = 0;
            while j < i
                invariant
                    j <= i < self.accounts.len(),
                    forall|p: int|
                        0 <= p < j ==> self@.account_ids()[p] != self@.account_ids()[i as int],
                decreases i - j,
            {
                if self.accounts[j].id == self.accounts[i].id {
                    assert(self@.account_ids()[j as int] == self@.account_ids()[i as int]);
                    return false;
                }
                j += 1;
            }
            i += 1;
        }
        let mut i: usize = 0;
        while i < self.posts.len()
            invariant
                i <= self.posts.len(),
                self@.account_ids().no_duplicates(),
                forall|p: int, q: int|
                    0 <= p < q < i ==> self@.post_ids()[p] != self@.post_ids()[q],
            decreases self.posts.len() - i,
        {
            let mut j: usize = 0;
            while j < i
                invariant
                    j <= i < self.posts.len(),
                    forall|p: int| 0 <= p < j ==> self@.post_ids()[p] != self@.post_ids()[i as int],
                decreases i - j,
            {
                if self.posts[j].id == self.posts[i].id {
                    assert(self@.post_ids()[j as int] == self@.post_ids()[i as int]);
                    return false;
                }
                j += 1;
            }
            i += 1;
        }
        let mut i: usize = 0;
        while i < self.comments.len()
            invariant
                i <= self.comments.len(),
                self@.account_ids().no_duplicates(),
                self@.post_ids().no_duplicates(),
                forall|p: int, q: int|
                    0 <= p < q < i ==> self@.comment_ids()[p] != self@.comment_ids()[q],
            decreases self.comments.len() - i,
        {
            let mut j: usize = 0;
            while j < i
                invariant
                    j <= i < self.comments.len(),
                    forall|p: int|
                        0 <= p < j ==> self@.comment_ids()[p] != self@.comment_ids()[i as int],
                decreases i - j,
            {
                if self.comments[j].id == self.comments[i].id {
                    assert(self@.comment_ids()[j as int] == self@.comment_ids()[i as int]);
                    return false;
                }
                j += 1;
            }
            i += 1;
        }
        true
    }

    /// Whether each friendship is stored once in each direction, and nobody
    /// is their own friend.
    fn friendships_are_sound(&self) -> (ok: bool)
        ensures
            ok == friendships_sound(self@.friends),
    {
        let mut i: usize = 0;
        while i < self.friends.len()
            invariant
                i <= self.friends.len(),
                forall|p: int, q: int| 0 <= p < q < i ==> self@.friends[p] != self@.friends[q],
                forall|p: int|
                    0 <= p < i ==> (#[trigger] self@.friends[p]).user_id
                        != self@.friends[p].friend_id,
                forall|p: int|
                    0 <= p < i ==> self@.friends.contains(flip(#[trigger] self@.friends[p])),
            decreases self.friends.len() - i,
        {
            let row = &self.friends[i];
            let ghost here = self@.friends[i as int];
            proof {
                self@.friends.index_of_first_ensures(here);
                self@.friends.index_of_first_ensures(flip(here));
            }
            if row.user_id == row.friend_id {
                assert(here.user_id == here.friend_id);
                return false;
            }
            match self.find_friend(&row.user_id, &row.friend_id) {
                Some(first) => {
                    if first != i {
                        assert(self@.friends[first as int] == here);
                        return false;
                    }
                },
                None => {
                    assert(self@.friends.contains(here));
                    return false;
                },
            }
            if self.find_friend(&row.friend_id, &row.user_id).is_none() {
                assert(!self@.friends.contains(flip(here)));
                return false;
            }
            assert forall|p: int| 0 <= p < i implies self@.friends[p] != here by {
                if self@.friends[p] == here {
                    assert(self@.friends[p] == self@.friends[i as int]);
                }
            }
            i += 1;
        }
        true
    }

    /// The store that holds the given rows, where they keep the invariant of
    /// the state; `None` where they break it.
    pub fn restore(
        accounts: Vec<AccountRow>,
        posts: Vec<Post>,
        comments: Vec<Comment>,
        friends: Vec<FriendRow>,
    ) -> (restored: Option<Store>)
        ensures
            match restored {
                Some(store) => store.wf() && store@ == rows_view(
                    accounts,
                    posts,
                    comments,
                    friends,
                ),
                None => !rows_view(accounts, posts, comments, friends).wf(),
            },
    {
        let store = Store { accounts, posts, comments, friends };
        if store.keys_are_distinct() && store.friendships_are_sound() {
            Some(store)
        } else {
            None
        }
    }
}

} // verus!
