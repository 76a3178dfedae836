//! The records that travel between a client and the service, each with its
//! mathematical view.

use vstd::prelude::*;

verus! {

/// A name and a credential, as sent to register, to log in or to edit an account.
#[derive(Debug, PartialEq, Eq)]
pub struct Login {
    pub name: String,
    pub password: String,
}

pub struct LoginView {
    pub name: Seq<char>,
    pub password: Seq<char>,
}

impl View for Login {
    type V = LoginView;

    open spec fn view(&self) -> LoginView {
        LoginView { name: self.name@, password: self.password@ }
    }
}

impl DeepView for Login {
    type V = LoginView;

    open spec fn deep_view(&self) -> LoginView {
        self@
    }
}

impl Clone for Login {
    fn clone(&self) -> (r: Self)
        ensures
            r@ == self@,
    {
        Login { name: self.name.clone(), password: self.password.clone() }
    }
}

/// An account as its owner sees it: the credential is included.
#[derive(Debug, PartialEq, Eq)]
pub struct SelfUser {
    pub id: String,
    pub name: String,
    pub password: String,
    pub friends: Vec<String>,
}

pub struct SelfUserView {
    pub id: Seq<char>,
    pub name: Seq<char>,
    pub password: Seq<char>,
    pub friends: Seq<Seq<char>>,
}

impl View for SelfUser {
    type V = SelfUserView;

    open spec fn view(&self) -> SelfUserView {
        SelfUserView {
            id: self.id@,
            name: self.name@,
            password: self.password@,
            friends: self.friends.deep_view(),
        }
    }
}

impl DeepView for SelfUser {
    type V = SelfUserView;

    open spec fn deep_view(&self) -> SelfUserView {
        self@
    }
}

/// An account as everybody else sees it: no credential.
#[derive(Debug, PartialEq, Eq)]
pub struct User {
    pub id: String,
    pub name: String,
    pub friends: Vec<String>,
}

pub struct UserView {
    pub id: Seq<char>,
    pub name: Seq<char>,
    pub friends: Seq<Seq<char>>,
}

impl View for User {
    type V = UserView;

    open spec fn view(&self) -> UserView {
        UserView { id: self.id@, name: self.name@, friends: self.friends.deep_view() }
    }
}

impl DeepView for User {
    type V = UserView;

    open spec fn deep_view(&self) -> UserView {
        self@
    }
}

/// What is left of an owner's view once the credential is taken out.
pub open spec fn public_view(s: SelfUserView) -> UserView {
    UserView { id: s.id, name: s.name, friends: s.friends }
}

impl vstd::std_specs::convert::FromSpecImpl<SelfUser> for User {
    open spec fn obeys_from_spec() -> bool {
        true
    }

    open spec fn from_spec(s: SelfUser) -> User {
        User { id: s.id, name: s.name, friends: s.friends }
    }
}

impl From<SelfUser> for User {
    /// Drops the credential and keeps the rest.
    fn from(s: SelfUser) -> (u: User)
        ensures
            u@ == public_view(s@),
    {
        User { id: s.id, name: s.name, friends: s.friends }
    }
}

/// A post. `likes` and `dislikes` start at zero, and nothing in this library
/// changes them afterwards.
#[derive(Debug, PartialEq, Eq)]
pub struct Post {
    pub id: String,
    pub user_id: String,
    pub title: String,
    pub body: String,
    pub date: String,
    pub likes: u32,
    pub dislikes: u32,
}

pub struct PostView {
    pub id: Seq<char>,
    pub user_id: Seq<char>,
    pub title: Seq<char>,
    pub body: Seq<char>,
    pub date: Seq<char>,
    pub likes: u32,
    pub dislikes: u32,
}

impl View for Post {
    type V = PostView;

    open spec fn view(&self) -> PostView {
        PostView {
            id: self.id@,
            user_id: self.user_id@,
            title: self.title@,
            body: self.body@,
            date: self.date@,
            likes: self.likes,
            dislikes: self.dislikes,
        }
    }
}

impl DeepView for Post {
    type V = PostView;

    open spec fn deep_view(&self) -> PostView {
        self@
    }
}

impl Clone for Post {
    fn clone(&self) -> (r: Self)
        ensures
            r@ == self@,
    {
        Post {
            id: self.id.clone(),
            user_id: self.user_id.clone(),
            title: self.title.clone(),
            body: self.body.clone(),
            date: self.date.clone(),
            likes: self.likes,
            dislikes: self.dislikes,
        }
    }
}

/// The fields of a post that an edit may overwrite.
#[derive(Debug, PartialEq, Eq)]
pub struct PostEdit {
    pub title: String,
    pub body: String,
}

pub struct PostEditView {
    pub title: Seq<char>,
    pub body: Seq<char>,
}

impl View for PostEdit {
    type V = PostEditView;

    open spec fn view(&self) -> PostEditView {
        PostEditView { title: self.title@, body: self.body@ }
    }
}

impl DeepView for PostEdit {
    type V = PostEditView;

    open spec fn deep_view(&self) -> PostEditView {
        self@
    }
}

/// A comment on a post. Its counters behave as those of a post.
#[derive(Debug, PartialEq, Eq)]
pub struct Comment {
    pub id: String,
    pub user_id: String,
    pub post_id: String,
    pub body: String,
    pub date: String,
    pub likes: u32,
    pub dislikes: u32,
}

pub struct CommentView {
    pub id: Seq<char>,
    pub user_id: Seq<char>,
    pub post_id: Seq<char>,
    pub body: Seq<char>,
    pub date: Seq<char>,
    pub likes: u32,
    pub dislikes: u32,
}

impl View for Comment {
    type V = CommentView;

    open spec fn view(&self) -> CommentView {
        CommentView {
            id: self.id@,
            user_id: self.user_id@,
            post_id: self.post_id@,
            body: self.body@,
            date: self.date@,
            likes: self.likes,
            dislikes: self.dislikes,
        }
    }
}

impl DeepView for Comment {
    type V = CommentView;

    open spec fn deep_view(&self) -> CommentView {
        self@
    }
}

impl Clone for Comment {
    fn clone(&self) -> (r: Self)
        ensures
            r@ == self@,
    {
        Comment {
            id: self.id.clone(),
            user_id: self.user_id.clone(),
            post_id: self.post_id.clone(),
            body: self.body.clone(),
            date: self.date.clone(),
            likes: self.likes,
            dislikes: self.dislikes,
        }
    }
}

/// The field of a comment that an edit may overwrite.
#[derive(Debug, PartialEq, Eq)]
pub struct CommentEdit {
    pub body: String,
}

pub struct CommentEditView {
    pub body: Seq<char>,
}

impl View for CommentEdit {
    type V = CommentEditView;

    open spec fn view(&self) -> CommentEditView {
        CommentEditView { body: self.body@ }
    }
}

impl DeepView for CommentEdit {
    type V = CommentEditView;

    open spec fn deep_view(&self) -> CommentEditView {
        self@
    }
}

/// The body of a request after the attempt to read it: the record, or the
/// reader's complaint.
pub open spec fn body_view<T: DeepView>(body: Result<T, String>) -> Result<T::V, Seq<char>> {
    match body {
        Ok(record) => Ok(record.deep_view()),
        Err(details) => Err(details@),
    }
}

} // verus!
