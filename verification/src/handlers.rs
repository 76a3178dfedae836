//! The requests of the service. Each one checks the caller's token where the
//! request asks for one, reads the body where there is one, works on the
//! store and answers in the uniform shape.

use crate::ident::{fresh_id, is_id};
use crate::model::{
    Comment, CommentEdit, CommentEditView, CommentView, Login, LoginView, Post, PostEdit,
    PostEditView, PostView, SelfUser, SelfUserView, User, UserView, body_view,
};
use crate::response::{
    ErrorKind, Response, ResponseView, database_error, invalid_json, plain_error, unauthorized,
};
use crate::state::StoreView;
use crate::store::Store;
use vstd::prelude::*;

verus! {

/// The token that may stop the service.
pub const ADMIN: &'static str = "nNuMPs82ERXOwJ4zvSxA";

// ----- admission -----

/// A token is admitted where it is the id of an account. No token, no
/// admission.
pub open spec fn admits(s: StoreView, key: Option<Seq<char>>) -> bool {
    match key {
        Some(id) => s.has_account(id),
        None => false,
    }
}

/// Whether the caller's token is admitted.
pub fn validate_key(store: &Store, key: &Option<String>) -> (admitted: bool)
    ensures
        admitted == admits(store@, key.deep_view()),
{
    match key {
        Some(id) => store.account_exists(id),
        None => false,
    }
}

/// What `stop` answers to the token `id`.
pub open spec fn stop_response(id: Seq<char>) -> ResponseView<()> {
    if id == ADMIN@ {
        ResponseView::Success
    } else {
        plain_error(
            ErrorKind::Unauthorized,
            "You must have admin privileges to stop the program!"@,
        )
    }
}

/// The administrator's request to stop the service. `Success` tells the host
/// to shut down in an orderly way; it is the answer to the administrator's
/// token and to no other. The store is not consulted.
pub fn stop(id: &String) -> (r: Response<()>)
    ensures
        r@ == stop_response(id@),
{
    let admin = String::from_str(ADMIN);
    if *id == admin {
        Response::Success()
    } else {
        Response::error(
            ErrorKind::Unauthorized,
            "You must have admin privileges to stop the program!",
        )
    }
}

// ----- accounts -----

/// What `users` answers.
pub open spec fn users_response(s: StoreView, key: Option<Seq<char>>) -> ResponseView<
    Seq<UserView>,
> {
    if !admits(s, key) {
        unauthorized()
    } else {
        ResponseView::Return(s.list_accounts())
    }
}

/// Every account, without its credential.
pub fn users(store: &Store, key: &Option<String>) -> (r: Response<Vec<User>>)
    ensures
        r@ == users_response(store@, key.deep_view()),
{
    if !validate_key(store, key) {
        return Response::unauthorized();
    }
    Response::Return(store.list_accounts())
}

/// What `new_user` makes of the state and answers, once the id is drawn.
pub open spec fn new_user_outcome(
    s: StoreView,
    body: Result<LoginView, Seq<char>>,
    id: Seq<char>,
) -> (StoreView, ResponseView<SelfUserView>) {
    match body {
        Err(details) => (s, invalid_json(details)),
        Ok(login) => {
            let (next, created) = s.create_account(login.name, login.password, id);
            match created {
                Ok(user) => (next, ResponseView::Return(user)),
                Err(ErrorKind::Conflict) => (
                    next,
                    plain_error(ErrorKind::Conflict, "User already exists"@),
                ),
                Err(_) => (next, database_error()),
            }
        },
    }
}

/// Registers an account under the id `id`. No token is asked for. The answer
/// is the new account, credential included, with no friends; `Conflict` where
/// the name is taken.
pub fn new_user_with_id(store: &mut Store, body: Result<Login, String>, id: String) -> (r:
    Response<SelfUser>)
    requires
        old(store).wf(),
    ensures
        final(store).wf(),
        (final(store)@, r@) == new_user_outcome(old(store)@, body_view(body), id@),
{
    match body {
        Err(details) => Response::invalid_json(details),
        Ok(login) => {
            match store.create_account(login.name, login.password, id) {
                Ok(user) => Response::Return(user),
                Err(ErrorKind::Conflict) => Response::error(
                    ErrorKind::Conflict,
                    "User already exists",
                ),
                Err(_) => Response::database_error(),
            }
        },
    }
}

/// Registers an account under a fresh random id.
pub fn new_user(store: &mut Store, body: Result<Login, String>) -> (r: Response<SelfUser>)
    requires
        old(store).wf(),
    ensures
        final(store).wf(),
        exists|id: Seq<char>|
            is_id(id) && (final(store)@, r@) == #[trigger] new_user_outcome(
                old(store)@,
                body_view(body),
                id,
            ),
{
    let id = fresh_id();
    new_user_with_id(store, body, id)
}

/// What `login` answers.
pub open spec fn login_response(s: StoreView, body: Result<LoginView, Seq<char>>) -> ResponseView<
    SelfUserView,
> {
    match body {
        Err(details) => invalid_json(details),
        Ok(input) => match s.login(input.name, input.password) {
            Some(user) => ResponseView::Return(user),
            None => plain_error(ErrorKind::Unauthorized, "Invalid username or password"@),
        },
    }
}

/// Logs in by name and credential. No token is asked for. The answer to an
/// unknown name is the answer to a wrong credential.
pub fn login(store: &Store, body: Result<Login, String>) -> (r: Response<SelfUser>)
    ensures
        r@ == login_response(store@, body_view(body)),
{
    match body {
        Err(details) => Response::invalid_json(details),
        Ok(input) => match store.login(&input.name, &input.password) {
            Some(user) => Response::Return(user),
            None => Response::error(ErrorKind::Unauthorized, "Invalid username or password"),
        },
    }
}

/// What `get_user` answers.
pub open spec fn get_user_response(
    s: StoreView,
    key: Option<Seq<char>>,
    id: Seq<char>,
) -> ResponseView<SelfUserView> {
    if !admits(s, key) {
        unauthorized()
    } else {
        match s.get_account(id) {
            Some(user) => ResponseView::Return(user),
            None => plain_error(ErrorKind::NotFound, "User not found"@),
        }
    }
}

/// The account `id`, credential included, whoever asks.
pub fn get_user(store: &Store, key: &Option<String>, id: &String) -> (r: Response<SelfUser>)
    ensures
        r@ == get_user_response(store@, key.deep_view(), id@),
{
    if !validate_key(store, key) {
        return Response::unauthorized();
    }
    match store.get_account(id) {
        Some(user) => Response::Return(user),
        None => Response::error(ErrorKind::NotFound, "User not found"),
    }
}

/// What `edit_user` makes of the state and answers.
pub open spec fn edit_user_outcome(
    s: StoreView,
    key: Option<Seq<char>>,
    id: Seq<char>,
    body: Result<LoginView, Seq<char>>,
) -> (StoreView, ResponseView<SelfUserView>) {
    if !admits(s, key) {
        (s, unauthorized())
    } else {
        match body {
            Err(details) => (s, invalid_json(details)),
            Ok(edit) => {
                let (next, found) = s.update_account(id, edit.name, edit.password);
                if found {
                    (next, ResponseView::Success)
                } else {
                    (next, plain_error(ErrorKind::NotFound, "User not found"@))
                }
            },
        }
    }
}

/// Overwrites the name and the credential of the account `id`, whoever asks.
pub fn edit_user(
    store: &mut Store,
    key: &Option<String>,
    id: &String,
    body: Result<Login, String>,
) -> (r: Response<SelfUser>)
    requires
        old(store).wf(),
    ensures
        final(store).wf(),
        (final(store)@, r@) == edit_user_outcome(
            old(store)@,
            key.deep_view(),
            id@,
            body_view(body),
        ),
{
    if !validate_key(store, key) {
        return Response::unauthorized();
    }
    match body {
        Err(details) => Response::invalid_json(details),
        Ok(edit) => {
            if store.update_account(id, edit.name, edit.password) {
                Response::Success()
            } else {
                Response::error(ErrorKind::NotFound, "User not found")
            }
        },
    }
}

/// What `delete_user` makes of the state and answers.
pub open spec fn delete_user_outcome(s: StoreView, key: Option<Seq<char>>, id: Seq<char>) -> (
    StoreView,
    ResponseView<UserView>,
) {
    if !admits(s, key) {
        (s, unauthorized())
    } else {
        (s.delete_account(id), ResponseView::Success)
    }
}

/// Removes the account `id`, whoever asks, and answers `Success` whether or
/// not there was one.
pub fn delete_user(store: &mut Store, key: &Option<String>, id: &String) -> (r: Response<User>)
    requires
        old(store).wf(),
    ensures
        final(store).wf(),
        (final(store)@, r@) == delete_user_outcome(old(store)@, key.deep_view(), id@),
{
    if !validate_key(store, key) {
        return Response::unauthorized();
    }
    store.delete_account(id);
    Response::Success()
}

// ----- posts -----

/// What `posts` answers.
pub open spec fn posts_response(s: StoreView, key: Option<Seq<char>>) -> ResponseView<
    Seq<PostView>,
> {
    if !admits(s, key) {
        unauthorized()
    } else {
        ResponseView::Return(s.posts)
    }
}

/// Every post, oldest first.
pub fn posts(store: &Store, key: &Option<String>) -> (r: Response<Vec<Post>>)
    ensures
        r@ == posts_response(store@, key.deep_view()),
{
    if !validate_key(store, key) {
        return Response::unauthorized();
    }
    Response::Return(store.list_posts())
}

/// What `new_post` makes of the state and answers, once the id is drawn.
pub open spec fn new_post_outcome(
    s: StoreView,
    key: Option<Seq<char>>,
    body: Result<PostView, Seq<char>>,
    id: Seq<char>,
) -> (StoreView, ResponseView<PostView>) {
    if !admits(s, key) {
        (s, unauthorized())
    } else {
        match body {
            Err(details) => (s, invalid_json(details)),
            Ok(draft) => {
                let (next, created) = s.create_post(draft, id);
                match created {
                    Some(post) => (next, ResponseView::Return(post)),
                    None => (next, database_error()),
                }
            },
        }
    }
}

/// Stores the post of the body under the id `id`. Whatever id and counters
/// the body carries, the stored post has the id `id` and both counters at
/// zero; the answer is the stored post.
pub fn new_post_with_id(
    store: &mut Store,
    key: &Option<String>,
    body: Result<Post, String>,
    id: String,
) -> (r: Response<Post>)
    requires
        old(store).wf(),
    ensures
        final(store).wf(),
        (final(store)@, r@) == new_post_outcome(
            old(store)@,
            key.deep_view(),
            body_view(body),
            id@,
        ),
{
    if !validate_key(store, key) {
        return Response::unauthorized();
    }
    match body {
        Err(details) => Response::invalid_json(details),
        Ok(draft) => match store.create_post(draft, id) {
            Some(post) => Response::Return(post),
            None => Response::database_error(),
        },
    }
}

/// Stores the post of the body under a fresh random id.
pub fn new_post(store: &mut Store, key: &Option<String>, body: Result<Post, String>) -> (r:
    Response<Post>)
    requires
        old(store).wf(),
    ensures
        final(store).wf(),
        exists|id: Seq<char>|
            is_id(id) && (final(store)@, r@) == #[trigger] new_post_outcome(
                old(store)@,
                key.deep_view(),
                body_view(body),
                id,
            ),
{
    let id = fresh_id();
    new_post_with_id(store, key, body, id)
}

/// What `get_post` answers.
pub open spec fn get_post_response(
    s: StoreView,
    key: Option<Seq<char>>,
    id: Seq<char>,
) -> ResponseView<PostView> {
    if !admits(s, key) {
        unauthorized()
    } else {
        match s.get_post(id) {
            Some(post) => ResponseView::Return(post),
            None => plain_error(ErrorKind::NotFound, "Post not found"@),
        }
    }
}

/// The post `id`.
pub fn get_post(store: &Store, key: &Option<String>, id: &String) -> (r: Response<Post>)
    ensures
        r@ == get_post_response(store@, key.deep_view(), id@),
{
    if !validate_key(store, key) {
        return Response::unauthorized();
    }
    match store.get_post(id) {
        Some(post) => Response::Return(post),
        None => Response::error(ErrorKind::NotFound, "Post not found"),
    }
}

/// What `edit_post` makes of the state and answers.
pub open spec fn edit_post_outcome(
    s: StoreView,
    key: Option<Seq<char>>,
    id: Seq<char>,
    body: Result<PostEditView, Seq<char>>,
) -> (StoreView, ResponseView<PostView>) {
    if !admits(s, key) {
        (s, unauthorized())
    } else {
        match body {
            Err(details) => (s, invalid_json(details)),
            Ok(edit) => {
                let (next, found) = s.update_post(id, edit.title, edit.body);
                if found {
                    (next, ResponseView::Success)
                } else {
                    (next, plain_error(ErrorKind::NotFound, "Post not found"@))
                }
            },
        }
    }
}

/// Overwrites the title and the body of the post `id`, whoever asks.
pub fn edit_post(
    store: &mut Store,
    key: &Option<String>,
    id: &String,
    body: Result<PostEdit, String>,
) -> (r: Response<Post>)
    requires
        old(store).wf(),
    ensures
        final(store).wf(),
        (final(store)@, r@) == edit_post_outcome(
            old(store)@,
            key.deep_view(),
            id@,
            body_view(body),
        ),
{
    if !validate_key(store, key) {
        return Response::unauthorized();
    }
    match body {
        Err(details) => Response::invalid_json(details),
        Ok(edit) => {
            if store.update_post(id, edit.title, edit.body) {
                Response::Success()
            } else {
                Response::error(ErrorKind::NotFound, "Post not found")
            }
        },
    }
}

/// What `delete_post` makes of the state and answers.
pub open spec fn delete_post_outcome(s: StoreView, key: Option<Seq<char>>, id: Seq<char>) -> (
    StoreView,
    ResponseView<PostView>,
) {
    if !admits(s, key) {
        (s, unauthorized())
    } else {
        (s.delete_post(id), ResponseView::Success)
    }
}

/// Removes the post `id`, whoever asks, and answers `Success` whether or not
/// there was one.
pub fn delete_post(store: &mut Store, key: &Option<String>, id: &String) -> (r: Response<Post>)
    requires
        old(store).wf(),
    ensures
        final(store).wf(),
        (final(store)@, r@) == delete_post_outcome(old(store)@, key.deep_view(), id@),
{
    if !validate_key(store, key) {
        return Response::unauthorized();
    }
    store.delete_post(id);
    Response::Success()
}

// ----- comments -----

/// What `comments` answers.
pub open spec fn comments_response(s: StoreView, key: Option<Seq<char>>) -> ResponseView<
    Seq<CommentView>,
> {
    if !admits(s, key) {
        unauthorized()
    } else {
        ResponseView::Return(s.comments)
    }
}

/// Every comment, oldest first.
pub fn comments(store: &Store, key: &Option<String>) -> (r: Response<Vec<Comment>>)
    ensures
        r@ == comments_response(store@, key.deep_view()),
{
    if !validate_key(store, key) {
        return Response::unauthorized();
    }
    Response::Return(store.list_comments())
}

/// What `new_comment` makes of the state and answers, once the id is drawn.
pub open spec fn new_comment_outcome(
    s: StoreView,
    key: Option<Seq<char>>,
    body: Result<CommentView, Seq<char>>,
    id: Seq<char>,
) -> (StoreView, ResponseView<CommentView>) {
    if !admits(s, key) {
        (s, unauthorized())
    } else {
        match body {
            Err(details) => (s, invalid_json(details)),
            Ok(draft) => {
                let (next, created) = s.create_comment(draft, id);
                match created {
                    Some(comment) => (next, ResponseView::Return(comment)),
                    None => (next, database_error()),
                }
            },
        }
    }
}

/// Stores the comment of the body under the id `id`, with both counters at
/// zero, and answers with the stored comment.
pub fn new_comment_with_id(
    store: &mut Store,
    key: &Option<String>,
    body: Result<Comment, String>,
    id: String,
) -> (r: Response<Comment>)
    requires
        old(store).wf(),
    ensures
        final(store).wf(),
        (final(store)@, r@) == new_comment_outcome(
            old(store)@,
            key.deep_view(),
            body_view(body),
            id@,
        ),
{
    if !validate_key(store, key) {
        return Response::unauthorized();
    }
    match body {
        Err(details) => Response::invalid_json(details),
        Ok(draft) => match store.create_comment(draft, id) {
            Some(comment) => Response::Return(comment),
            None => Response::database_error(),
        },
    }
}

/// Stores the comment of the body under a fresh random id.
pub fn new_comment(store: &mut Store, key: &Option<String>, body: Result<Comment, String>) -> (r:
    Response<Comment>)
    requires
        old(store).wf(),
    ensures
        final(store).wf(),
        exists|id: Seq<char>|
            is_id(id) && (final(store)@, r@) == #[trigger] new_comment_outcome(
                old(store)@,
                key.deep_view(),
                body_view(body),
                id,
            ),
{
    let id = fresh_id();
    new_comment_with_id(store, key, body, id)
}

/// What `get_comment` answers.
pub open spec fn get_comment_response(
    s: StoreView,
    key: Option<Seq<char>>,
    id: Seq<char>,
) -> ResponseView<CommentView> {
    if !admits(s, key) {
        unauthorized()
    } else {
        match s.get_comment(id) {
            Some(comment) => ResponseView::Return(comment),
            None => plain_error(ErrorKind::NotFound, "Comment not found"@),
        }
    }
}

/// The comment `id`.
pub fn get_comment(store: &Store, key: &Option<String>, id: &String) -> (r: Response<Comment>)
    ensures
        r@ == get_comment_response(store@, key.deep_view(), id@),
{
    if !validate_key(store, key) {
        return Response::unauthorized();
    }
    match store.get_comment(id) {
        Some(comment) => Response::Return(comment),
        None => Response::error(ErrorKind::NotFound, "Comment not found"),
    }
}

/// What `edit_comment` makes of the state and answers.
pub open spec fn edit_comment_outcome(
    s: StoreView,
    key: Option<Seq<char>>,
    id: Seq<char>,
    body: Result<CommentEditView, Seq<char>>,
) -> (StoreView, ResponseView<CommentView>) {
    if !admits(s, key) {
        (s, unauthorized())
    } else {
        match body {
            Err(details) => (s, invalid_json(details)),
            Ok(edit) => {
                let (next, found) = s.update_comment(id, edit.body);
                if found {
                    (next, ResponseView::Success)
                } else {
                    (next, plain_error(ErrorKind::NotFound, "Comment not found"@))
                }
            },
        }
    }
}

/// Overwrites the body of the comment `id`, whoever asks.
pub fn edit_comment(
    store: &mut Store,
    key: &Option<String>,
    id: &String,
    body: Result<CommentEdit, String>,
) -> (r: Response<Comment>)
    requires
        old(store).wf(),
    ensures
        final(store).wf(),
        (final(store)@, r@) == edit_comment_outcome(
            old(store)@,
            key.deep_view(),
            id@,
            body_view(body),
        ),
{
    if !validate_key(store, key) {
        return Response::unauthorized();
    }
    match body {
        Err(details) => Response::invalid_json(details),
        Ok(edit) => {
            if store.update_comment(id, edit.body) {
                Response::Success()
            } else {
                Response::error(ErrorKind::NotFound, "Comment not found")
            }
        },
    }
}

/// What `delete_comment` makes of the state and answers.
pub open spec fn delete_comment_outcome(s: StoreView, key: Option<Seq<char>>, id: Seq<char>) -> (
    StoreView,
    ResponseView<CommentView>,
) {
    if !admits(s, key) {
        (s, unauthorized())
    } else {
        (s.delete_comment(id), ResponseView::Success)
    }
}

/// Removes the comment `id`, whoever asks, and answers `Success` whether or
/// not there was one.
pub fn delete_comment(store: &mut Store, key: &Option<String>, id: &String) -> (r: Response<
    Comment,
>)
    requires
        old(store).wf(),
    ensures
        final(store).wf(),
        (final(store)@, r@) == delete_comment_outcome(old(store)@, key.deep_view(), id@),
{
    if !validate_key(store, key) {
        return Response::unauthorized();
    }
    store.delete_comment(id);
    Response::Success()
}

// ----- friends -----

/// What `add_friend` makes of the state and answers. The caller is the
/// account of the token, the new friend the account `id`.
pub open spec fn add_friend_outcome(s: StoreView, key: Option<Seq<char>>, id: Seq<char>) -> (
    StoreView,
    ResponseView<UserView>,
) {
    match key {
        Some(caller) if s.has_account(caller) => {
            if caller == id {
                (s, plain_error(ErrorKind::BadRequest, "Cannot add yourself as a friend"@))
            } else {
                (s.add_friend(caller, id), ResponseView::Success)
            }
        },
        _ => (s, unauthorized()),
    }
}

/// Makes the caller and the account `id` friends of each other. Asked twice,
/// it answers `Success` twice and stores the friendship once. A caller who
/// names their own account is refused with `BadRequest`.
pub fn add_friend(store: &mut Store, key: &Option<String>, id: &String) -> (r: Response<User>)
    requires
        old(store).wf(),
    ensures
        final(store).wf(),
        (final(store)@, r@) == add_friend_outcome(old(store)@, key.deep_view(), id@),
{
    if !validate_key(store, key) {
        return Response::unauthorized();
    }
    match key {
        Some(caller) => {
            if store.add_friend(caller, id) {
                Response::Success()
            } else {
                Response::error(ErrorKind::BadRequest, "Cannot add yourself as a friend")
            }
        },
        None => Response::unauthorized(),
    }
}

/// What `remove_friend` makes of the state and answers.
pub open spec fn remove_friend_outcome(s: StoreView, key: Option<Seq<char>>, id: Seq<char>) -> (
    StoreView,
    ResponseView<UserView>,
) {
    match key {
        Some(caller) if s.has_account(caller) => (
            s.remove_friend(caller, id),
            ResponseView::Success,
        ),
        _ => (s, unauthorized()),
    }
}

/// Ends the friendship of the caller and the account `id`, whichever of them
/// once asked for it, and answers `Success` whether or not there was one.
pub fn remove_friend(store: &mut Store, key: &Option<String>, id: &String) -> (r: Response<User>)
    requires
        old(store).wf(),
    ensures
        final(store).wf(),
        (final(store)@, r@) == remove_friend_outcome(old(store)@, key.deep_view(), id@),
{
    if !validate_key(store, key) {
        return Response::unauthorized();
    }
    match key {
        Some(caller) => {
            store.remove_friend(caller, id);
            Response::Success()
        },
        None => Response::unauthorized(),
    }
}

/// What `get_friends` answers.
pub open spec fn get_friends_response(
    s: StoreView,
    key: Option<Seq<char>>,
    id: Seq<char>,
) -> ResponseView<Seq<UserView>> {
    if !admits(s, key) {
        unauthorized()
    } else {
        match s.get_friends(id) {
            Some(friends) => ResponseView::Return(friends),
            None => plain_error(ErrorKind::NotFound, "User not found"@),
        }
    }
}

/// The friends of the account `id`, without their credentials.
pub fn get_friends(store: &Store, key: &Option<String>, id: &String) -> (r: Response<Vec<User>>)
    ensures
        r@ == get_friends_response(store@, key.deep_view(), id@),
{
    if !validate_key(store, key) {
        return Response::unauthorized();
    }
    match store.get_friends(id) {
        Some(friends) => Response::Return(friends),
        None => Response::error(ErrorKind::NotFound, "User not found"),
    }
}

} // verus!
