use auth_service::api_key_service;
use auth_service::db_types::ApiKeyKind;
use auth_service::email_service;
use auth_service::parent_permission_service;
use auth_service::password_reset_service;
use auth_service::password_service;
use auth_service::request::{
    ApiKeyViewProps, EmailViewProps, ParentPermissionViewProps, PasswordViewProps,
    UserDataViewProps, UserViewProps, VerificationChallengeViewProps,
};
use auth_service::response::{ApiKeyData, AuthError};
use auth_service::store::Store;
use auth_service::user_data_service;
use auth_service::user_service;
use auth_service::utils::hash_str;
use auth_service::verification_challenge_service;
use auth_service::views::{
    api_key_view, email_view, parent_permission_view, password_view, user_data_view, user_view,
    verification_challenge_view,
};

const NOW: i64 = 1_000;

fn s(x: &str) -> String {
    x.to_string()
}

/// Two users; the raw key `key` belongs to the first and is valid at `NOW`.
fn store() -> Store {
    let mut store = Store::new();
    user_service::add(&mut store, 10).unwrap();
    user_service::add(&mut store, 20).unwrap();
    user_data_service::add(&mut store, 10, 1, s("alice")).unwrap();
    user_data_service::add(&mut store, 20, 2, s("bob")).unwrap();
    user_data_service::add(&mut store, 30, 1, s("alicia")).unwrap();
    verification_challenge_service::add(&mut store, 11, s("h1"), s("alice@x"), 1, false).unwrap();
    verification_challenge_service::add(&mut store, 21, s("h0"), s("parent@x"), 2, true).unwrap();
    email_service::add(&mut store, 12, 1, s("h1")).unwrap();
    parent_permission_service::add(&mut store, 10, 1, None).unwrap();
    parent_permission_service::add(&mut store, 22, 2, Some(s("h0"))).unwrap();
    password_reset_service::add(&mut store, 40, s("r1"), 1).unwrap();
    password_service::add(&mut store, 10, 1, s("pw1"), None).unwrap();
    password_service::add(&mut store, 41, 1, s("pw2"), Some(s("r1"))).unwrap();
    api_key_service::add(&mut store, 100, 1, hash_str("key"), ApiKeyKind::Valid, 1_000).unwrap();
    api_key_service::add(&mut store, 100, 2, hash_str("old"), ApiKeyKind::Valid, 10).unwrap();
    store
}

fn users(key: &str) -> UserViewProps {
    UserViewProps { user_id: None, min_creation_time: None, max_creation_time: None, api_key: s(key) }
}

#[test]
fn user_view_lists_users() {
    let st = store();
    let v = user_view(&st, NOW, users("key")).unwrap();
    assert_eq!(v.iter().map(|u| (u.user_id, u.creation_time)).collect::<Vec<_>>(), vec![
        (1, 10),
        (2, 20)
    ]);
    let mut p = users("key");
    p.min_creation_time = Some(15);
    let v = user_view(&st, NOW, p).unwrap();
    assert_eq!(v.len(), 1);
    assert_eq!(v[0].user_id, 2);
}

#[test]
fn views_need_a_valid_key() {
    let st = store();
    assert_eq!(user_view(&st, NOW, users("unknown")).unwrap_err(), AuthError::ApiKeyNonexistent);
    assert_eq!(user_view(&st, NOW, users("old")).unwrap_err(), AuthError::ApiKeyUnauthorized);
    assert_eq!(user_view(&st, 1_101, users("key")).unwrap_err(), AuthError::ApiKeyUnauthorized);
    assert!(user_view(&st, 1_100, users("key")).is_ok());
}

#[test]
fn user_data_view_lists_names() {
    let st = store();
    let p = UserDataViewProps {
        user_data_id: None,
        min_creation_time: None,
        max_creation_time: None,
        creator_user_id: None,
        name: None,
        only_recent: true,
        api_key: s("key"),
    };
    let v = user_data_view(&st, NOW, p).unwrap();
    assert_eq!(v.iter().map(|d| d.name.clone()).collect::<Vec<_>>(), vec!["bob", "alicia"]);
    assert_eq!(v[1].user_data_id, 3);
    assert_eq!(v[1].creator_user_id, 1);
    assert_eq!(v[1].creation_time, 30);
}

#[test]
fn email_view_embeds_the_challenge() {
    let st = store();
    let p = EmailViewProps {
        email_id: None,
        min_creation_time: None,
        max_creation_time: None,
        creator_user_id: None,
        email: Some(vec![s("alice@x")]),
        only_recent: false,
        api_key: s("key"),
    };
    let v = email_view(&st, NOW, p).unwrap();
    assert_eq!(v.len(), 1);
    assert_eq!((v[0].email_id, v[0].creation_time, v[0].creator_user_id), (1, 12, 1));
    assert_eq!(v[0].verification_challenge.email, "alice@x");
    assert_eq!(v[0].verification_challenge.creation_time, 11);
    assert!(!v[0].verification_challenge.to_parent);
}

#[test]
fn parent_permission_view_embeds_the_challenge_if_any() {
    let st = store();
    let p = ParentPermissionViewProps {
        parent_permission_id: None,
        min_creation_time: None,
        max_creation_time: None,
        user_id: None,
        from_challenge: None,
        parent_email: None,
        only_recent: false,
        api_key: s("key"),
    };
    let v = parent_permission_view(&st, NOW, p).unwrap();
    assert_eq!(v.len(), 2);
    assert!(v[0].verification_challenge.is_none());
    assert_eq!(v[0].user_id, 1);
    let vc = v[1].verification_challenge.as_ref().unwrap();
    assert_eq!(vc.email, "parent@x");
    assert!(vc.to_parent);
    assert_eq!(v[1].parent_permission_id, 2);
}

#[test]
fn parent_permission_view_reports_a_missing_challenge() {
    let mut st = store();
    parent_permission_service::add(&mut st, 50, 2, Some(s("missing"))).unwrap();
    let p = ParentPermissionViewProps {
        parent_permission_id: None,
        min_creation_time: None,
        max_creation_time: None,
        user_id: None,
        from_challenge: Some(true),
        parent_email: None,
        only_recent: false,
        api_key: s("key"),
    };
    assert_eq!(
        parent_permission_view(&st, NOW, p).unwrap_err(),
        AuthError::VerificationChallengeNonexistent
    );
}

#[test]
fn password_view_embeds_the_reset_and_hides_the_hash() {
    let st = store();
    let p = PasswordViewProps {
        password_id: None,
        min_creation_time: None,
        max_creation_time: None,
        creator_user_id: None,
        from_reset: None,
        only_recent: false,
        api_key: s("key"),
    };
    let v = password_view(&st, NOW, p).unwrap();
    assert_eq!(v.len(), 2);
    assert!(v[0].password_reset.is_none());
    assert_eq!(v[1].password_reset.as_ref().unwrap().creation_time, 40);
    assert_eq!((v[1].password_id, v[1].creation_time, v[1].creator_user_id), (2, 41, 1));
}

#[test]
fn password_view_reports_a_missing_reset() {
    let mut st = store();
    password_service::add(&mut st, 60, 2, s("pw3"), Some(s("missing"))).unwrap();
    let p = PasswordViewProps {
        password_id: None,
        min_creation_time: None,
        max_creation_time: None,
        creator_user_id: None,
        from_reset: None,
        only_recent: false,
        api_key: s("key"),
    };
    assert_eq!(password_view(&st, NOW, p).unwrap_err(), AuthError::PasswordResetNonexistent);
}

#[test]
fn verification_challenge_view_lists_by_hash() {
    let st = store();
    let p = VerificationChallengeViewProps {
        min_creation_time: None,
        max_creation_time: None,
        creator_user_id: None,
        to_parent: None,
        email: None,
        api_key: s("key"),
    };
    let v = verification_challenge_view(&st, NOW, p).unwrap();
    // The hash h0 comes before h1, though it was stored later.
    assert_eq!(v.iter().map(|c| c.email.clone()).collect::<Vec<_>>(), vec!["parent@x", "alice@x"]);
    assert_eq!(v[0].creation_time, 21);
    assert!(v[0].to_parent);
}

#[test]
fn api_key_view_holds_no_raw_key() {
    let st = store();
    let p = ApiKeyViewProps {
        api_key_id: None,
        min_creation_time: None,
        max_creation_time: None,
        creator_user_id: Some(vec![1]),
        min_duration: None,
        max_duration: None,
        api_key_kind: None,
        only_recent: false,
        api_key: s("key"),
    };
    let v = api_key_view(&st, NOW, p).unwrap();
    assert_eq!(v.len(), 1);
    assert_eq!((v[0].api_key_id, v[0].creation_time, v[0].creator_user_id), (1, 100, 1));
    match &v[0].api_key_data {
        ApiKeyData::Valid { duration, key } => {
            assert_eq!(*duration, 1_000);
            assert!(key.is_none());
        }
        ApiKeyData::Cancel => panic!("the row is a valid one"),
    }
}
