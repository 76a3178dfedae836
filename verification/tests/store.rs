use bluebird::{
    AccountRow, Comment, ErrorBody, ErrorKind, FriendRow, Post, Response, SelfUser, Store, User,
};

fn account(id: &str, name: &str) -> AccountRow {
    AccountRow { id: id.to_string(), name: name.to_string(), password: "pw".to_string() }
}

fn friend(a: &str, b: &str) -> FriendRow {
    FriendRow { user_id: a.to_string(), friend_id: b.to_string() }
}

fn post(id: &str) -> Post {
    Post {
        id: id.to_string(),
        user_id: "A".to_string(),
        title: "t".to_string(),
        body: "b".to_string(),
        date: "d".to_string(),
        likes: 3,
        dislikes: 4,
    }
}

fn comment(id: &str) -> Comment {
    Comment {
        id: id.to_string(),
        user_id: "A".to_string(),
        post_id: "P".to_string(),
        body: "b".to_string(),
        date: "d".to_string(),
        likes: 1,
        dislikes: 2,
    }
}

#[test]
fn a_new_store_is_empty() {
    let store = Store::new();
    assert!(store.account_rows().is_empty());
    assert!(store.list_accounts().is_empty());
    assert!(store.list_posts().is_empty());
    assert!(store.list_comments().is_empty());
    assert!(store.friend_rows().is_empty());
}

#[test]
fn restore_hands_back_the_rows_it_was_given() {
    let store = Store::restore(
        vec![account("A", "a"), account("B", "b")],
        vec![post("P1"), post("P2")],
        vec![comment("C1")],
        vec![friend("A", "B"), friend("B", "A"), friend("A", "gone"), friend("gone", "A")],
    )
    .expect("the rows keep the invariant");
    assert_eq!(store.account_rows(), vec![account("A", "a"), account("B", "b")]);
    assert_eq!(store.list_posts(), vec![post("P1"), post("P2")]);
    assert_eq!(store.list_comments(), vec![comment("C1")]);
    assert_eq!(
        store.friend_rows(),
        vec![friend("A", "B"), friend("B", "A"), friend("A", "gone"), friend("gone", "A")]
    );
    assert_eq!(store.friend_ids(&"A".to_string()), vec!["B".to_string(), "gone".to_string()]);
}

#[test]
fn restore_keeps_counters_as_stored() {
    let store = Store::restore(vec![], vec![post("P1")], vec![], vec![]).unwrap();
    let p = store.get_post(&"P1".to_string()).unwrap();
    assert_eq!((p.likes, p.dislikes), (3, 4));
}

#[test]
fn restore_accepts_accounts_that_share_a_name() {
    let store = Store::restore(vec![account("A", "same"), account("B", "same")], vec![], vec![], vec![]);
    let store = store.expect("names are no keys");
    let found = store.login(&"same".to_string(), &"pw".to_string()).unwrap();
    assert_eq!(found.id, "A");
}

#[test]
fn restore_refuses_rows_that_break_the_invariant() {
    assert!(Store::restore(vec![account("A", "a"), account("A", "b")], vec![], vec![], vec![]).is_none());
    assert!(Store::restore(vec![], vec![post("P"), post("Q"), post("P")], vec![], vec![]).is_none());
    assert!(Store::restore(vec![], vec![], vec![comment("C"), comment("C")], vec![]).is_none());
    assert!(Store::restore(vec![], vec![], vec![], vec![friend("A", "B")]).is_none());
    assert!(Store::restore(vec![], vec![], vec![], vec![friend("A", "A")]).is_none());
    assert!(Store::restore(
        vec![],
        vec![],
        vec![],
        vec![friend("A", "B"), friend("B", "A"), friend("A", "B")]
    )
    .is_none());
    assert!(Store::restore(
        vec![],
        vec![],
        vec![],
        vec![friend("A", "B"), friend("B", "A"), friend("B", "A")]
    )
    .is_none());
    assert!(Store::restore(vec![], vec![], vec![], vec![friend("A", "B"), friend("B", "C")]).is_none());
}

#[test]
fn create_account_reports_conflict_before_a_taken_id() {
    let mut store = Store::new();
    let made = store.create_account("alice".to_string(), "pw".to_string(), "A".to_string());
    assert_eq!(
        made,
        Ok(SelfUser {
            id: "A".to_string(),
            name: "alice".to_string(),
            password: "pw".to_string(),
            friends: vec![],
        })
    );
    assert_eq!(
        store.create_account("alice".to_string(), "x".to_string(), "A".to_string()),
        Err(ErrorKind::Conflict)
    );
    assert_eq!(
        store.create_account("alice".to_string(), "x".to_string(), "B".to_string()),
        Err(ErrorKind::Conflict)
    );
    assert_eq!(
        store.create_account("bob".to_string(), "x".to_string(), "A".to_string()),
        Err(ErrorKind::InternalError)
    );
    assert_eq!(store.account_rows(), vec![account("A", "alice")]);
}

#[test]
fn update_and_delete_say_what_they_found() {
    let mut store =
        Store::restore(vec![account("A", "a"), account("B", "b")], vec![post("P")], vec![comment("C")], vec![])
            .unwrap();
    assert!(store.update_account(&"B".to_string(), "bee".to_string(), "pw2".to_string()));
    assert!(!store.update_account(&"Z".to_string(), "zed".to_string(), "pw2".to_string()));
    assert_eq!(
        store.account_rows(),
        vec![
            account("A", "a"),
            AccountRow { id: "B".to_string(), name: "bee".to_string(), password: "pw2".to_string() },
        ]
    );
    assert!(store.update_post(&"P".to_string(), "T".to_string(), "B".to_string()));
    assert!(!store.update_post(&"Q".to_string(), "T".to_string(), "B".to_string()));
    assert!(store.update_comment(&"C".to_string(), "B".to_string()));
    assert!(!store.update_comment(&"D".to_string(), "B".to_string()));
    store.delete_account(&"A".to_string());
    store.delete_post(&"P".to_string());
    store.delete_comment(&"C".to_string());
    assert_eq!(store.account_rows().len(), 1);
    assert!(store.list_posts().is_empty());
    assert!(store.list_comments().is_empty());
}

#[test]
fn each_kind_of_error_has_its_status() {
    assert_eq!(ErrorKind::BadRequest.status_code(), 400);
    assert_eq!(ErrorKind::Unauthorized.status_code(), 401);
    assert_eq!(ErrorKind::NotFound.status_code(), 404);
    assert_eq!(ErrorKind::Conflict.status_code(), 409);
    assert_eq!(ErrorKind::InternalError.status_code(), 500);
}

#[test]
fn a_response_carries_its_status() {
    assert_eq!(Response::<User>::Success().status(), 200);
    let user = User { id: "A".to_string(), name: "a".to_string(), friends: vec![] };
    assert_eq!(Response::Return(user).status(), 200);
    assert_eq!(Response::<User>::unauthorized().status(), 401);
    assert_eq!(Response::<User>::database_error().status(), 500);
    assert_eq!(Response::<User>::invalid_json("why".to_string()).status(), 400);
    assert_eq!(Response::<User>::error(ErrorKind::Conflict, "taken").status(), 409);
    assert_eq!(
        Response::<User>::error(ErrorKind::NotFound, "gone"),
        Response::Error(
            ErrorKind::NotFound,
            ErrorBody { error: "gone".to_string(), details: None }
        )
    );
}

#[test]
fn a_public_account_has_no_credential() {
    let owner = SelfUser {
        id: "A".to_string(),
        name: "alice".to_string(),
        password: "pw".to_string(),
        friends: vec!["B".to_string()],
    };
    let public = User::from(owner);
    assert_eq!(
        public,
        User { id: "A".to_string(), name: "alice".to_string(), friends: vec!["B".to_string()] }
    );
}
