use bluebird::handlers::{
    delete_user, edit_user, get_user, login, new_user, new_user_with_id, users, validate_key,
};
use bluebird::{ErrorBody, ErrorKind, Login, Response, SelfUser, Store, User};

fn credentials(name: &str, password: &str) -> Result<Login, String> {
    Ok(Login { name: name.to_string(), password: password.to_string() })
}

fn key(id: &str) -> Option<String> {
    Some(id.to_string())
}

fn plain(error: &str) -> ErrorBody {
    ErrorBody { error: error.to_string(), details: None }
}

fn register(store: &mut Store, name: &str, password: &str, id: &str) -> SelfUser {
    match new_user_with_id(store, credentials(name, password), id.to_string()) {
        Response::Return(user) => user,
        other => panic!("registration failed: {:?}", other),
    }
}

#[test]
fn scenario_register_alice_twice() {
    let mut store = Store::new();
    let first = new_user(&mut store, credentials("alice", "pw1"));
    let alice = match first {
        Response::Return(user) => user,
        other => panic!("expected the new account, got {:?}", other),
    };
    assert_eq!(alice.id.chars().count(), 30);
    assert!(alice.id.chars().all(|c| c.is_ascii_alphanumeric()));
    assert_eq!(alice.name, "alice");
    assert_eq!(alice.password, "pw1");
    assert_eq!(alice.friends, Vec::<String>::new());

    let second = new_user(&mut store, credentials("alice", "pw2"));
    assert_eq!(second.status(), 409);
    assert_eq!(second, Response::Error(ErrorKind::Conflict, plain("User already exists")));

    let listed = store.list_accounts();
    assert_eq!(listed.len(), 1);
    assert_eq!(store.get_account(&alice.id).map(|u| u.password), Some("pw1".to_string()));
}

#[test]
fn registration_with_a_given_id_answers_with_that_account() {
    let mut store = Store::new();
    let r = new_user_with_id(&mut store, credentials("bob", "secret"), "B1".to_string());
    assert_eq!(r.status(), 200);
    assert_eq!(
        r,
        Response::Return(SelfUser {
            id: "B1".to_string(),
            name: "bob".to_string(),
            password: "secret".to_string(),
            friends: vec![],
        })
    );
}

#[test]
fn registration_under_a_taken_id_is_a_store_failure() {
    let mut store = Store::new();
    register(&mut store, "bob", "secret", "B1");
    let r = new_user_with_id(&mut store, credentials("carol", "x"), "B1".to_string());
    assert_eq!(r.status(), 500);
    assert_eq!(r, Response::Error(ErrorKind::InternalError, plain("Database error")));
    assert_eq!(store.list_accounts().len(), 1);
}

#[test]
fn registration_with_an_unreadable_body_is_a_bad_request() {
    let mut store = Store::new();
    let r = new_user(&mut store, Err("missing field `name`".to_string()));
    assert_eq!(r.status(), 400);
    assert_eq!(
        r,
        Response::Error(
            ErrorKind::BadRequest,
            ErrorBody {
                error: "Invalid JSON".to_string(),
                details: Some("missing field `name`".to_string()),
            },
        )
    );
    assert!(store.list_accounts().is_empty());
}

#[test]
fn login_returns_the_account_with_its_friends() {
    let mut store = Store::new();
    register(&mut store, "alice", "pw1", "A1");
    register(&mut store, "bob", "pw2", "B1");
    assert!(store.add_friend(&"A1".to_string(), &"B1".to_string()));
    let r = login(&store, credentials("alice", "pw1"));
    assert_eq!(
        r,
        Response::Return(SelfUser {
            id: "A1".to_string(),
            name: "alice".to_string(),
            password: "pw1".to_string(),
            friends: vec!["B1".to_string()],
        })
    );
}

#[test]
fn login_failures_are_indistinguishable() {
    let mut store = Store::new();
    register(&mut store, "alice", "pw1", "A1");
    let wrong_password = login(&store, credentials("alice", "nope"));
    let wrong_name = login(&store, credentials("mallory", "pw1"));
    let wrong_both = login(&store, credentials("mallory", "nope"));
    let expected: Response<SelfUser> =
        Response::Error(ErrorKind::Unauthorized, plain("Invalid username or password"));
    assert_eq!(wrong_password, expected);
    assert_eq!(wrong_name, expected);
    assert_eq!(wrong_both, expected);
    assert_eq!(wrong_name.status(), 401);
}

#[test]
fn login_with_an_unreadable_body_is_a_bad_request() {
    let store = Store::new();
    let r = login(&store, Err("expected value".to_string()));
    assert_eq!(r.status(), 400);
}

#[test]
fn get_user_returns_the_full_record_to_any_admitted_caller() {
    let mut store = Store::new();
    register(&mut store, "alice", "pw1", "A1");
    register(&mut store, "bob", "pw2", "B1");
    let by_bob = get_user(&store, &key("B1"), &"A1".to_string());
    assert_eq!(
        by_bob,
        Response::Return(SelfUser {
            id: "A1".to_string(),
            name: "alice".to_string(),
            password: "pw1".to_string(),
            friends: vec![],
        })
    );
    let by_alice = get_user(&store, &key("A1"), &"A1".to_string());
    assert_eq!(by_alice, by_bob);
}

#[test]
fn get_user_of_an_unknown_id_is_not_found() {
    let mut store = Store::new();
    register(&mut store, "alice", "pw1", "A1");
    let r = get_user(&store, &key("A1"), &"nobody".to_string());
    assert_eq!(r.status(), 404);
    assert_eq!(r, Response::Error(ErrorKind::NotFound, plain("User not found")));
}

#[test]
fn users_lists_every_account_without_credentials() {
    let mut store = Store::new();
    register(&mut store, "alice", "pw1", "A1");
    register(&mut store, "bob", "pw2", "B1");
    register(&mut store, "carol", "pw3", "C1");
    store.add_friend(&"A1".to_string(), &"C1".to_string());
    let r = users(&store, &key("B1"));
    assert_eq!(
        r,
        Response::Return(vec![
            User { id: "A1".to_string(), name: "alice".to_string(), friends: vec!["C1".to_string()] },
            User { id: "B1".to_string(), name: "bob".to_string(), friends: vec![] },
            User { id: "C1".to_string(), name: "carol".to_string(), friends: vec!["A1".to_string()] },
        ])
    );
}

#[test]
fn edit_user_overwrites_name_and_credential() {
    let mut store = Store::new();
    register(&mut store, "alice", "pw1", "A1");
    let r = edit_user(&mut store, &key("A1"), &"A1".to_string(), credentials("alicia", "pw9"));
    assert_eq!(r, Response::Success());
    assert_eq!(r.status(), 200);
    let after = store.get_account(&"A1".to_string()).unwrap();
    assert_eq!(after.name, "alicia");
    assert_eq!(after.password, "pw9");
    assert_eq!(after.id, "A1");
    assert!(matches!(login(&store, credentials("alicia", "pw9")), Response::Return(_)));
    assert_eq!(login(&store, credentials("alice", "pw1")).status(), 401);
}

#[test]
fn edit_user_does_not_ask_who_owns_the_account() {
    let mut store = Store::new();
    register(&mut store, "alice", "pw1", "A1");
    register(&mut store, "bob", "pw2", "B1");
    let r = edit_user(&mut store, &key("B1"), &"A1".to_string(), credentials("renamed", "x"));
    assert_eq!(r, Response::Success());
    assert_eq!(store.get_account(&"A1".to_string()).unwrap().name, "renamed");
}

#[test]
fn edit_user_of_an_unknown_id_is_not_found() {
    let mut store = Store::new();
    register(&mut store, "alice", "pw1", "A1");
    let r = edit_user(&mut store, &key("A1"), &"Z9".to_string(), credentials("x", "y"));
    assert_eq!(r, Response::Error(ErrorKind::NotFound, plain("User not found")));
    assert_eq!(store.get_account(&"A1".to_string()).unwrap().name, "alice");
}

#[test]
fn edit_user_with_an_unreadable_body_changes_nothing() {
    let mut store = Store::new();
    register(&mut store, "alice", "pw1", "A1");
    let r = edit_user(&mut store, &key("A1"), &"A1".to_string(), Err("EOF".to_string()));
    assert_eq!(
        r,
        Response::Error(
            ErrorKind::BadRequest,
            ErrorBody { error: "Invalid JSON".to_string(), details: Some("EOF".to_string()) },
        )
    );
    assert_eq!(store.get_account(&"A1".to_string()).unwrap().name, "alice");
}

#[test]
fn delete_user_removes_the_row_and_nothing_else() {
    let mut store = Store::new();
    register(&mut store, "alice", "pw1", "A1");
    register(&mut store, "bob", "pw2", "B1");
    store.add_friend(&"A1".to_string(), &"B1".to_string());
    let r = delete_user(&mut store, &key("B1"), &"A1".to_string());
    assert_eq!(r, Response::Success());
    assert_eq!(store.get_account(&"A1".to_string()), None);
    assert!(!validate_key(&store, &key("A1")));
    assert_eq!(store.friend_ids(&"B1".to_string()), vec!["A1".to_string()]);
    assert!(store.are_friends(&"A1".to_string(), &"B1".to_string()));
}

#[test]
fn delete_user_of_an_unknown_id_succeeds() {
    let mut store = Store::new();
    register(&mut store, "alice", "pw1", "A1");
    let r = delete_user(&mut store, &key("A1"), &"Z9".to_string());
    assert_eq!(r, Response::Success());
    assert_eq!(store.list_accounts().len(), 1);
}

#[test]
fn a_name_is_free_again_after_its_account_is_deleted() {
    let mut store = Store::new();
    register(&mut store, "alice", "pw1", "A1");
    register(&mut store, "bob", "pw2", "B1");
    delete_user(&mut store, &key("B1"), &"A1".to_string());
    let again = new_user_with_id(&mut store, credentials("alice", "pw3"), "A2".to_string());
    assert!(matches!(again, Response::Return(_)));
}

#[test]
fn account_requests_without_admission_change_nothing() {
    let mut store = Store::new();
    register(&mut store, "alice", "pw1", "A1");
    let denied = plain("Unauthorized");
    assert_eq!(users(&store, &None), Response::Error(ErrorKind::Unauthorized, plain("Unauthorized")));
    assert_eq!(
        get_user(&store, &key("stranger"), &"A1".to_string()),
        Response::Error(ErrorKind::Unauthorized, plain("Unauthorized"))
    );
    assert_eq!(
        edit_user(&mut store, &None, &"A1".to_string(), credentials("x", "y")),
        Response::Error(ErrorKind::Unauthorized, plain("Unauthorized"))
    );
    assert_eq!(
        edit_user(&mut store, &None, &"A1".to_string(), Err("bad".to_string())),
        Response::Error(ErrorKind::Unauthorized, denied)
    );
    assert_eq!(
        delete_user(&mut store, &key(""), &"A1".to_string()),
        Response::Error(ErrorKind::Unauthorized, plain("Unauthorized"))
    );
    assert_eq!(store.get_account(&"A1".to_string()).unwrap().name, "alice");
}
