use bluebird::handlers::{new_user_with_id, stop, validate_key, ADMIN};
use bluebird::{ErrorBody, ErrorKind, Login, Response, Store};

fn store_with_account(id: &str) -> Store {
    let mut store = Store::new();
    let login = Login { name: "alice".to_string(), password: "pw".to_string() };
    let r = new_user_with_id(&mut store, Ok(login), id.to_string());
    assert!(matches!(r, Response::Return(_)));
    store
}

#[test]
fn a_token_is_admitted_where_it_is_an_account_id() {
    let store = store_with_account("U1");
    assert!(validate_key(&store, &Some("U1".to_string())));
    assert!(store.account_exists(&"U1".to_string()));
}

#[test]
fn a_missing_or_unknown_token_is_denied() {
    let store = store_with_account("U1");
    assert!(!validate_key(&store, &None));
    assert!(!validate_key(&store, &Some("U2".to_string())));
    assert!(!validate_key(&store, &Some("".to_string())));
    assert!(!validate_key(&store, &Some("u1".to_string())));
    assert!(!validate_key(&store, &Some("U1 ".to_string())));
    assert!(!validate_key(&store, &Some("alice".to_string())));
    assert!(!validate_key(&store, &Some("pw".to_string())));
}

#[test]
fn nobody_is_admitted_to_an_empty_store() {
    let store = Store::new();
    assert!(!validate_key(&store, &Some("U1".to_string())));
    assert!(!validate_key(&store, &None));
}

#[test]
fn the_admin_token_is_no_account() {
    let store = store_with_account("U1");
    assert!(!validate_key(&store, &Some(ADMIN.to_string())));
}

#[test]
fn stop_is_granted_to_the_admin_token_only() {
    assert_eq!(stop(&ADMIN.to_string()), Response::Success());
    assert_eq!(stop(&"nNuMPs82ERXOwJ4zvSxA".to_string()).status(), 200);
    let expected = Response::Error(
        ErrorKind::Unauthorized,
        ErrorBody {
            error: "You must have admin privileges to stop the program!".to_string(),
            details: None,
        },
    );
    assert_eq!(stop(&"U1".to_string()), expected);
    assert_eq!(stop(&"".to_string()), expected);
    assert_eq!(stop(&"nNuMPs82ERXOwJ4zvSxa".to_string()), expected);
    assert_eq!(stop(&"nNuMPs82ERXOwJ4zvSxAA".to_string()), expected);
    assert_eq!(stop(&"U1".to_string()).status(), 401);
}
