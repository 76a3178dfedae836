use bluebird::handlers::{
    delete_post, edit_post, get_post, new_post, new_post_with_id, new_user_with_id, posts,
};
use bluebird::{ErrorBody, ErrorKind, Login, Post, PostEdit, Response, Store};

fn key(id: &str) -> Option<String> {
    Some(id.to_string())
}

fn plain(error: &str) -> ErrorBody {
    ErrorBody { error: error.to_string(), details: None }
}

fn store_with_account(id: &str) -> Store {
    let mut store = Store::new();
    let login = Login { name: format!("name-of-{}", id), password: "pw".to_string() };
    let r = new_user_with_id(&mut store, Ok(login), id.to_string());
    assert!(matches!(r, Response::Return(_)));
    store
}

fn draft(id: &str, user_id: &str, title: &str, body: &str, likes: u32, dislikes: u32) -> Post {
    Post {
        id: id.to_string(),
        user_id: user_id.to_string(),
        title: title.to_string(),
        body: body.to_string(),
        date: "2024-01-01".to_string(),
        likes,
        dislikes,
    }
}

#[test]
fn scenario_post_with_ignored_id_and_counters() {
    let mut store = store_with_account("U1");
    let r = new_post(&mut store, &key("U1"), Ok(draft("ignored", "U1", "t", "b", 99, 99)));
    assert_eq!(r.status(), 200);
    let post = match r {
        Response::Return(post) => post,
        other => panic!("expected the stored post, got {:?}", other),
    };
    assert_ne!(post.id, "ignored");
    assert_eq!(post.id.chars().count(), 30);
    assert!(post.id.chars().all(|c| c.is_ascii_alphanumeric()));
    assert_eq!(post.user_id, "U1");
    assert_eq!(post.title, "t");
    assert_eq!(post.body, "b");
    assert_eq!(post.date, "2024-01-01");
    assert_eq!(post.likes, 0);
    assert_eq!(post.dislikes, 0);
}

#[test]
fn a_stored_post_round_trips() {
    let mut store = store_with_account("U1");
    let sent = draft("ignored", "U1", "title", "text", 7, 8);
    let r = new_post_with_id(&mut store, &key("U1"), Ok(sent), "P1".to_string());
    let expected = draft("P1", "U1", "title", "text", 0, 0);
    assert_eq!(r, Response::Return(expected.clone()));
    assert_eq!(get_post(&store, &key("U1"), &"P1".to_string()), Response::Return(expected));
    assert_eq!(
        get_post(&store, &key("U1"), &"ignored".to_string()),
        Response::Error(ErrorKind::NotFound, plain("Post not found"))
    );
}

#[test]
fn a_post_that_was_never_stored_is_not_found() {
    let store = store_with_account("U1");
    let r = get_post(&store, &key("U1"), &"P404".to_string());
    assert_eq!(r.status(), 404);
    assert_eq!(r, Response::Error(ErrorKind::NotFound, plain("Post not found")));
}

#[test]
fn a_post_under_a_taken_id_is_a_store_failure() {
    let mut store = store_with_account("U1");
    new_post_with_id(&mut store, &key("U1"), Ok(draft("", "U1", "a", "b", 0, 0)), "P1".to_string());
    let r = new_post_with_id(
        &mut store,
        &key("U1"),
        Ok(draft("", "U1", "c", "d", 0, 0)),
        "P1".to_string(),
    );
    assert_eq!(r.status(), 500);
    assert_eq!(r, Response::Error(ErrorKind::InternalError, plain("Database error")));
    assert_eq!(store.list_posts().len(), 1);
    assert_eq!(store.get_post(&"P1".to_string()).unwrap().title, "a");
}

#[test]
fn a_post_with_an_unreadable_body_is_a_bad_request() {
    let mut store = store_with_account("U1");
    let r = new_post(&mut store, &key("U1"), Err("expected `,` or `}`".to_string()));
    assert_eq!(r.status(), 400);
    assert_eq!(
        r,
        Response::Error(
            ErrorKind::BadRequest,
            ErrorBody {
                error: "Invalid JSON".to_string(),
                details: Some("expected `,` or `}`".to_string()),
            },
        )
    );
    assert!(store.list_posts().is_empty());
}

#[test]
fn posts_lists_every_post_oldest_first() {
    let mut store = store_with_account("U1");
    for (id, title) in [("P1", "one"), ("P2", "two"), ("P3", "three")] {
        new_post_with_id(
            &mut store,
            &key("U1"),
            Ok(draft("", "somebody-else", title, "", 1, 1)),
            id.to_string(),
        );
    }
    assert_eq!(
        posts(&store, &key("U1")),
        Response::Return(vec![
            draft("P1", "somebody-else", "one", "", 0, 0),
            draft("P2", "somebody-else", "two", "", 0, 0),
            draft("P3", "somebody-else", "three", "", 0, 0),
        ])
    );
}

#[test]
fn posts_of_an_empty_store_is_an_empty_list() {
    let store = store_with_account("U1");
    assert_eq!(posts(&store, &key("U1")), Response::Return(vec![]));
}

#[test]
fn edit_post_overwrites_title_and_body_only() {
    let mut store = store_with_account("U1");
    new_post_with_id(&mut store, &key("U1"), Ok(draft("", "U1", "t", "b", 0, 0)), "P1".to_string());
    new_post_with_id(&mut store, &key("U1"), Ok(draft("", "U1", "u", "c", 0, 0)), "P2".to_string());
    let edit = PostEdit { title: "T".to_string(), body: "B".to_string() };
    let r = edit_post(&mut store, &key("U1"), &"P1".to_string(), Ok(edit));
    assert_eq!(r, Response::Success());
    assert_eq!(store.get_post(&"P1".to_string()), Some(draft("P1", "U1", "T", "B", 0, 0)));
    assert_eq!(store.get_post(&"P2".to_string()), Some(draft("P2", "U1", "u", "c", 0, 0)));
}

#[test]
fn edit_post_of_an_unknown_id_is_not_found() {
    let mut store = store_with_account("U1");
    let edit = PostEdit { title: "T".to_string(), body: "B".to_string() };
    let r = edit_post(&mut store, &key("U1"), &"P1".to_string(), Ok(edit));
    assert_eq!(r, Response::Error(ErrorKind::NotFound, plain("Post not found")));
}

#[test]
fn edit_post_with_an_unreadable_body_changes_nothing() {
    let mut store = store_with_account("U1");
    new_post_with_id(&mut store, &key("U1"), Ok(draft("", "U1", "t", "b", 0, 0)), "P1".to_string());
    let r = edit_post(&mut store, &key("U1"), &"P1".to_string(), Err("bad".to_string()));
    assert_eq!(r.status(), 400);
    assert_eq!(store.get_post(&"P1".to_string()).unwrap().title, "t");
}

#[test]
fn delete_post_is_unconditional() {
    let mut store = store_with_account("U1");
    new_post_with_id(&mut store, &key("U1"), Ok(draft("", "X", "t", "b", 0, 0)), "P1".to_string());
    new_post_with_id(&mut store, &key("U1"), Ok(draft("", "Y", "u", "c", 0, 0)), "P2".to_string());
    assert_eq!(delete_post(&mut store, &key("U1"), &"P1".to_string()), Response::Success());
    assert_eq!(store.get_post(&"P1".to_string()), None);
    assert_eq!(store.list_posts(), vec![draft("P2", "Y", "u", "c", 0, 0)]);
    assert_eq!(delete_post(&mut store, &key("U1"), &"P1".to_string()), Response::Success());
    assert_eq!(store.list_posts().len(), 1);
}

#[test]
fn post_requests_without_admission_change_nothing() {
    let mut store = store_with_account("U1");
    new_post_with_id(&mut store, &key("U1"), Ok(draft("", "U1", "t", "b", 0, 0)), "P1".to_string());
    let denied = || Response::Error(ErrorKind::Unauthorized, plain("Unauthorized"));
    assert_eq!(posts(&store, &None), Response::Error(ErrorKind::Unauthorized, plain("Unauthorized")));
    assert_eq!(get_post(&store, &key("P1"), &"P1".to_string()), denied());
    assert_eq!(new_post(&mut store, &None, Ok(draft("", "U1", "x", "y", 0, 0))), denied());
    assert_eq!(new_post(&mut store, &key("U2"), Err("bad".to_string())), denied());
    let edit = PostEdit { title: "T".to_string(), body: "B".to_string() };
    assert_eq!(edit_post(&mut store, &key("nobody"), &"P1".to_string(), Ok(edit)), denied());
    assert_eq!(delete_post(&mut store, &None, &"P1".to_string()), denied());
    assert_eq!(store.list_posts(), vec![draft("P1", "U1", "t", "b", 0, 0)]);
    assert_eq!(posts(&store, &None).status(), 401);
}
