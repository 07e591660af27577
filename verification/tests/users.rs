//! User accounts, validation, sessions and the bearer-token round trip.

use neptis::errors::{NeptisError, ValidateError};
use neptis::hash::EncodedHash;
use neptis::store::Store;
use neptis::traits::CleanValidate;
use neptis::user_actions::{
    create_user, delete_one_user, get_all_users, get_one_user, parse_token, register_session,
    update_user,
};
use neptis::user_dtos::{UserForCreateApi, UserForLoginApi, UserForUpdateApi};
use neptis::users::{Session, User};

fn admin() -> User {
    User {
        user_name: "admin".to_string(),
        first_name: "Admin".to_string(),
        last_name: "Admin".to_string(),
        password_hash: EncodedHash::hash("XXXXXXXXX"),
        create_date: 0,
        is_admin: true,
        max_data_bytes: 0,
        max_snapshot_bytes: 0,
    }
}

fn create_bob(store: &mut Store) {
    let api = UserForCreateApi {
        user_name: "bob".to_string(),
        password: "hunter2".to_string(),
        first_name: "Bob".to_string(),
        last_name: "B".to_string(),
        is_admin: false,
        max_data_bytes: Some(50_000_000),
        max_snapshot_bytes: Some(50_000_000),
    };
    create_user(store, &admin(), api, 100).unwrap();
}

#[test]
fn create_requires_admin() {
    let mut store = Store::new();
    let mut caller = admin();
    caller.is_admin = false;
    let api = UserForCreateApi {
        user_name: "bob".to_string(),
        password: "pw".to_string(),
        first_name: "Bob".to_string(),
        last_name: "B".to_string(),
        is_admin: false,
        max_data_bytes: None,
        max_snapshot_bytes: None,
    };
    assert!(matches!(
        create_user(&mut store, &caller, api, 0),
        Err(NeptisError::Unauthorized(_))
    ));
}

#[test]
fn create_validates_and_trims() {
    let mut store = Store::new();
    let api = UserForCreateApi {
        user_name: "  bob  ".to_string(),
        password: "pw".to_string(),
        first_name: "Bob".to_string(),
        last_name: "B".to_string(),
        is_admin: false,
        max_data_bytes: None,
        max_snapshot_bytes: None,
    };
    let dto = create_user(&mut store, &admin(), api, 0).unwrap();
    assert_eq!(dto.user_name, "bob");
    assert_eq!(store.users[0].max_data_bytes, 0);
    let blank = UserForCreateApi {
        user_name: "   ".to_string(),
        password: "pw".to_string(),
        first_name: "Bob".to_string(),
        last_name: "B".to_string(),
        is_admin: false,
        max_data_bytes: None,
        max_snapshot_bytes: None,
    };
    assert!(matches!(
        create_user(&mut store, &admin(), blank, 0),
        Err(NeptisError::Validation(ValidateError::ValueRequired(_)))
    ));
}

#[test]
fn update_overwrites_only_supplied_fields() {
    let mut store = Store::new();
    create_bob(&mut store);
    let upd = UserForUpdateApi {
        first_name: Some("Robert".to_string()),
        last_name: None,
        is_admin: None,
        max_data_bytes: Some(9),
        max_snapshot_bytes: None,
        password: None,
    };
    update_user(&mut store, &admin(), "bob", upd).unwrap();
    assert_eq!(store.users[0].first_name, "Robert");
    assert_eq!(store.users[0].last_name, "B");
    assert_eq!(store.users[0].max_data_bytes, 9);
    assert_eq!(store.users[0].max_snapshot_bytes, 50_000_000);
}

#[test]
fn quota_fields_are_admin_only_in_listings() {
    let mut store = Store::new();
    create_bob(&mut store);
    let as_admin = get_all_users(&store, &admin()).unwrap();
    assert_eq!(as_admin.len(), 1);
    assert_eq!(as_admin[0].max_data_bytes, Some(50_000_000));
    let bob = store.users[0].duplicate();
    let as_bob = get_one_user(&store, &bob, "bob").unwrap();
    assert_eq!(as_bob.max_data_bytes, None);
}

#[test]
fn delete_guards_admin_and_self() {
    let mut store = Store::new();
    create_bob(&mut store);
    let bob = store.users[0].duplicate();
    assert!(matches!(
        delete_one_user(&mut store, &bob, "bob"),
        Err(NeptisError::Unauthorized(_))
    ));
    assert!(matches!(
        delete_one_user(&mut store, &admin(), "admin"),
        Err(NeptisError::BadRequest(_))
    ));
    assert_eq!(delete_one_user(&mut store, &admin(), "ghost").unwrap(), 0);
    assert_eq!(delete_one_user(&mut store, &admin(), "bob").unwrap(), 1);
    assert!(store.users.is_empty());
}

#[test]
fn password_hash_matches_only_the_right_password() {
    let h = EncodedHash::hash("abc");
    assert!(h.matches_plain("abc"));
    assert!(!h.matches_plain("abd"));
    assert_eq!(h.as_text(), "ungWv48Bz+pBQUDeXa4iI7ADYaOWF3qctBD/YfIAFa0=");
}

#[test]
fn sessions_last_an_hour() {
    let s = Session::new("bob");
    assert_eq!(s.user_name, "bob");
    assert!(s.enabled);
    assert_eq!(s.expire_date - s.create_date, 3600);
    assert!(s.is_active(s.create_date));
    assert!(!s.is_active(s.expire_date));
}

#[test]
fn login_round_trip_authenticates_the_bearer_token() {
    let mut store = Store::new();
    create_bob(&mut store);
    let key = [7u8; 32];
    let login = UserForLoginApi { user_name: "bob".to_string(), password: "hunter2".to_string() };
    let token = register_session(&mut store, &login, &key).unwrap();
    assert_eq!(store.sessions.len(), 1);
    let header = format!("Bearer {}", token.token);
    let who = parse_token(&store, &header, &key, 0).unwrap();
    assert_eq!(who.user_name, "bob");
    // A tampered key or malformed header resolves to no one.
    let other_key = [8u8; 32];
    assert!(parse_token(&store, &header, &other_key, 0).is_none());
    assert!(parse_token(&store, &token.token, &key, 0).is_none());
    assert!(parse_token(&store, "Basic abc", &key, 0).is_none());
    // An expired session no longer authenticates.
    assert!(parse_token(&store, &header, &key, i64::MAX).is_none());
}

#[test]
fn login_rejects_wrong_passwords_and_unknown_users() {
    let mut store = Store::new();
    create_bob(&mut store);
    let key = [7u8; 32];
    let bad_pw = UserForLoginApi { user_name: "bob".to_string(), password: "nope".to_string() };
    assert!(matches!(
        register_session(&mut store, &bad_pw, &key),
        Err(NeptisError::BadRequest(_))
    ));
    let ghost = UserForLoginApi { user_name: "ghost".to_string(), password: "x".to_string() };
    assert!(matches!(
        register_session(&mut store, &ghost, &key),
        Err(NeptisError::DbQuery(_))
    ));
    // A short signing key cannot encrypt the session identifier.
    let login = UserForLoginApi { user_name: "bob".to_string(), password: "hunter2".to_string() };
    assert!(matches!(
        register_session(&mut store, &login, &[1u8; 4]),
        Err(NeptisError::InternalError(_))
    ));
}

#[test]
fn user_validate_requires_all_names() {
    let mut u = admin();
    u.first_name = " ".to_string();
    assert!(matches!(u.validate(), Err(ValidateError::ValueRequired(_))));
}
