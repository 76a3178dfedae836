use bluebird::ident::{fresh_id, gen_id, ID_LEN};

#[test]
fn gen_id_has_the_length_asked_for() {
    assert_eq!(gen_id(0).len(), 0);
    assert_eq!(gen_id(1).chars().count(), 1);
    assert_eq!(gen_id(30).chars().count(), 30);
    assert_eq!(gen_id(257).chars().count(), 257);
}

#[test]
fn gen_id_draws_letters_and_digits_only() {
    let key = gen_id(2000);
    assert!(key.chars().all(|c| c.is_ascii_alphanumeric()));
}

#[test]
fn fresh_id_is_thirty_alphanumerics() {
    assert_eq!(ID_LEN, 30);
    let id = fresh_id();
    assert_eq!(id.len(), 30);
    assert!(id.chars().all(|c| c.is_ascii_alphanumeric()));
}

#[test]
fn fresh_ids_differ() {
    assert_ne!(fresh_id(), fresh_id());
}
