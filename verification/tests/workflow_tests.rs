use auth_service::api_key_service;
use auth_service::config::Config;
use auth_service::db_types::ApiKeyKind;
use auth_service::email_service;
use auth_service::handlers::{
    api_key_new_cancel, api_key_new_valid, cancel, check_reset, consume_for_email,
    consume_for_parent_permission, email_new, find_credentials, get_api_key_if_valid_noverify,
    get_api_key_if_verified, get_user_by_api_key_if_valid, get_user_by_id, issue, issue_valid,
    parent_permission_new, password_new_change, password_new_reset, password_reset_new, register,
    request_reset, resolve, resolve_valid_noverify, resolve_verified, set_password, user_data_new,
    user_new, verification_challenge_new, FIFTEEN_MINUTES,
};
use auth_service::mail::MailNewProps;
use auth_service::parent_permission_service;
use auth_service::password_reset_service;
use auth_service::password_service;
use auth_service::request::{
    ApiKeyNewCancelProps, ApiKeyNewValidProps, EmailNewProps, GetUserByApiKeyIfValid,
    GetUserByIdProps, ParentPermissionNewProps, PasswordNewChangeProps, PasswordNewResetProps,
    PasswordResetNewProps, UserDataNewProps, UserNewProps, VerificationChallengeNewProps,
};
use auth_service::response::{ApiKeyData, AuthError};
use auth_service::store::Store;
use auth_service::user_data_service;
use auth_service::user_service;
use auth_service::utils::{hash_str, verify_password};
use auth_service::verification_challenge_service;

const T0: i64 = 1_700_000_000_000;

fn s(x: &str) -> String {
    x.to_string()
}

fn config() -> Config {
    Config { site_external_url: s("https://site.example") }
}

/// The token that a mail carries after `marker`.
fn token(mail: &MailNewProps, marker: &str) -> String {
    let start = mail.content.find(marker).unwrap() + marker.len();
    let end = mail.content[start..].find("</p>").unwrap() + start;
    mail.content[start..end].to_string()
}

fn challenge_token(mail: &MailNewProps) -> String {
    token(mail, "verificationChallengeKey=")
}

fn new_user(name: &str, email: &str, password: &str, parent: Option<&str>) -> UserNewProps {
    UserNewProps {
        user_name: s(name),
        user_email: s(email),
        user_password: s(password),
        parent_email: parent.map(s),
    }
}

/// A store with one registered user of full age whose address is confirmed,
/// and a valid API key of that user.
fn store_with_user(email: &str, password: &str) -> (Store, String) {
    let mut store = Store::new();
    let key = add_user(&mut store, T0, "alice", email, password);
    (store, key)
}

/// Registers a user of full age at `now`, confirms the address and issues an
/// API key for an hour.
fn add_user(store: &mut Store, now: i64, name: &str, email: &str, password: &str) -> String {
    let mut outbox = Vec::new();
    user_new(&config(), store, &mut outbox, now, new_user(name, email, password, None)).unwrap();
    let key = challenge_token(&outbox[0]);
    email_new(store, now, EmailNewProps { verification_challenge_key: key }).unwrap();
    login(store, now, email, password, 3_600_000)
}

fn login(store: &mut Store, now: i64, email: &str, password: &str, duration: i64) -> String {
    let r = api_key_new_valid(
        store,
        now,
        ApiKeyNewValidProps { user_email: s(email), user_password: s(password), duration },
    )
    .unwrap();
    match r.api_key_data {
        ApiKeyData::Valid { key, .. } => key.unwrap(),
        ApiKeyData::Cancel => panic!("a cancel row was issued"),
    }
}

// Registration

#[test]
fn registration_with_parent_issues_two_challenges_and_no_permission() {
    let mut store = Store::new();
    let mut outbox = Vec::new();
    let r = user_new(
        &config(),
        &mut store,
        &mut outbox,
        T0,
        new_user("bob", "bob@x.example", "longenough1", Some("parent@x.example")),
    )
    .unwrap();
    assert_eq!(r.name, "bob");
    assert_eq!(r.user_data_id, 1);
    assert_eq!(r.creator_user_id, 1);
    assert_eq!(r.creation_time, T0);
    assert_eq!(store.users().len(), 1);
    assert_eq!(store.user_data().len(), 1);
    assert_eq!(store.passwords().len(), 1);
    assert_eq!(store.parent_permissions().len(), 0);
    let challenges = store.verification_challenges();
    assert_eq!(challenges.len(), 2);
    assert!(!challenges[0].to_parent);
    assert_eq!(challenges[0].email, "bob@x.example");
    assert_eq!(challenges[0].creator_user_id, 1);
    assert!(challenges[1].to_parent);
    assert_eq!(challenges[1].email, "parent@x.example");
    assert_eq!(challenges[1].creator_user_id, 1);
    assert_eq!(outbox.len(), 2);
    assert_eq!(outbox[0].destination, "bob@x.example");
    assert_eq!(outbox[0].topic, "verification_challenge");
    assert_eq!(outbox[1].destination, "parent@x.example");
    assert_eq!(outbox[1].topic, "parent_permission");
    // Only the hashes of the tokens are stored.
    assert_eq!(
        hash_str(&challenge_token(&outbox[0])),
        challenges[0].verification_challenge_key_hash
    );
    assert_eq!(
        hash_str(&challenge_token(&outbox[1])),
        challenges[1].verification_challenge_key_hash
    );
}

#[test]
fn registration_without_parent_declares_the_permission() {
    let mut store = Store::new();
    let mut outbox = Vec::new();
    user_new(
        &config(),
        &mut store,
        &mut outbox,
        T0,
        new_user("carol", "carol@x.example", "longenough1", None),
    )
    .unwrap();
    assert_eq!(store.verification_challenges().len(), 1);
    assert_eq!(store.parent_permissions().len(), 1);
    let pp = &store.parent_permissions()[0];
    assert_eq!((pp.parent_permission_id, pp.user_id, pp.creation_time), (1, 1, T0));
    assert_eq!(pp.verification_challenge_key_hash, None);
    assert_eq!(outbox.len(), 1);
    let p = &store.passwords()[0];
    assert_eq!(p.creator_user_id, 1);
    assert_eq!(p.password_reset_key_hash, None);
    assert_ne!(p.password_hash, "longenough1");
    assert!(verify_password("longenough1", &p.password_hash).unwrap());
}

#[test]
fn registration_mail_texts() {
    let mut store = Store::new();
    let mut outbox = Vec::new();
    user_new(
        &config(),
        &mut store,
        &mut outbox,
        T0,
        new_user("bob", "bob@x.example", "longenough1", Some("parent@x.example")),
    )
    .unwrap();
    let k0 = challenge_token(&outbox[0]);
    let k1 = challenge_token(&outbox[1]);
    assert_ne!(k0, k1);
    assert_eq!(outbox[0].request_id, 0);
    assert_eq!(outbox[0].title, "https://site.example: Email Verification");
    assert_eq!(
        outbox[0].content,
        format!(
            "<p>This email has been sent to verify for: <code>bob</code> </p>\
             <p>If you did not make this request, then feel free to ignore.</p>\
             <p>This link is valid for up to 15 minutes.</p>\
             <p>Do not share this link with others.</p>\
             <p>Verification link: https://site.example/email_confirm?verificationChallengeKey={}</p>",
            k0
        )
    );
    assert_eq!(outbox[1].title, "https://site.example: Parent Permission For bob");
    assert_eq!(
        outbox[1].content,
        format!(
            "<p>Your child, <code>bob</code>, has requested permission to use: \
             <code>https://site.example</code></p>\
             <p>If you did not make this request, then feel free to ignore.</p>\
             <p>This link is valid for up to 15 minutes.</p>\
             <p>Do not share this link with others.</p>\
             <p>Verification link: https://site.example/parent_confirm?verificationChallengeKey={}</p>",
            k1
        )
    );
}

#[test]
fn registration_refuses_an_empty_name() {
    let mut store = Store::new();
    let mut outbox = Vec::new();
    let r = user_new(
        &config(),
        &mut store,
        &mut outbox,
        T0,
        new_user("", "bob@x.example", "longenough1", None),
    );
    assert_eq!(r.unwrap_err(), AuthError::UserNameEmpty);
    assert!(store.users().is_empty());
    assert!(outbox.is_empty());
}

#[test]
fn registration_refuses_an_insecure_password() {
    let mut store = Store::new();
    let mut outbox = Vec::new();
    for password in ["short1", "longenough"] {
        let r = user_new(
            &config(),
            &mut store,
            &mut outbox,
            T0,
            new_user("bob", "bob@x.example", password, None),
        );
        assert_eq!(r.unwrap_err(), AuthError::PasswordInsecure);
    }
    assert!(store.users().is_empty());
    assert!(store.verification_challenges().is_empty());
    assert!(outbox.is_empty());
}

#[test]
fn an_empty_name_is_reported_before_an_insecure_password() {
    let mut store = Store::new();
    let mut outbox = Vec::new();
    let r = user_new(&config(), &mut store, &mut outbox, T0, new_user("", "b@x", "short", None));
    assert_eq!(r.unwrap_err(), AuthError::UserNameEmpty);
}

#[test]
fn register_stores_all_rows_or_none() {
    let mut store = Store::new();
    let r = register(
        &mut store,
        T0,
        s("bob"),
        s("pwhash"),
        s("bob@x"),
        s("h-own"),
        Some((s("parent@x"), s("h-parent"))),
    )
    .unwrap();
    assert_eq!(r.name, "bob");
    assert_eq!(store.users().len(), 1);
    assert_eq!(store.verification_challenges().len(), 2);
    // The hash of the parent's challenge is taken: nothing is stored.
    let r = register(
        &mut store,
        T0 + 1,
        s("eve"),
        s("pwhash"),
        s("eve@x"),
        s("h-eve"),
        Some((s("parent@x"), s("h-parent"))),
    );
    assert_eq!(r.unwrap_err(), AuthError::InternalServerError);
    assert_eq!(store.users().len(), 1);
    assert_eq!(store.user_data().len(), 1);
    assert_eq!(store.passwords().len(), 1);
    assert_eq!(store.verification_challenges().len(), 2);
    // The hash of the own challenge is taken.
    let r = register(&mut store, T0 + 1, s("eve"), s("pwhash"), s("eve@x"), s("h-own"), None);
    assert_eq!(r.unwrap_err(), AuthError::InternalServerError);
    assert_eq!(store.users().len(), 1);
    assert_eq!(store.parent_permissions().len(), 0);
    // Both challenges under one hash.
    let r = register(
        &mut store,
        T0 + 1,
        s("eve"),
        s("pwhash"),
        s("eve@x"),
        s("h-new"),
        Some((s("parent@x"), s("h-new"))),
    );
    assert_eq!(r.unwrap_err(), AuthError::InternalServerError);
    assert_eq!(store.users().len(), 1);
    assert_eq!(store.verification_challenges().len(), 2);
}

// Challenges

fn store_with_challenge(to_parent: bool) -> Store {
    let mut store = Store::new();
    verification_challenge_service::add(&mut store, T0, s("h"), s("a@x"), 7, to_parent).unwrap();
    store
}

#[test]
fn resolve_finds_a_challenge_inside_its_window() {
    let store = store_with_challenge(false);
    assert_eq!(resolve(&store, T0, "h").unwrap().creator_user_id, 7);
    assert_eq!(resolve(&store, T0, "other").unwrap_err(), AuthError::VerificationChallengeNonexistent);
    assert_eq!(
        resolve(&store, T0 + FIFTEEN_MINUTES + 1, "h").unwrap_err(),
        AuthError::VerificationChallengeTimedOut
    );
}

#[test]
fn fifteen_minutes_are_900000_milliseconds() {
    assert_eq!(FIFTEEN_MINUTES, 900_000);
}

#[test]
fn wrong_purpose_is_wrong_kind_not_nonexistent() {
    let mut store = store_with_challenge(true);
    assert_eq!(
        consume_for_email(&mut store, T0 + 1, s("h")).unwrap_err(),
        AuthError::VerificationChallengeWrongKind
    );
    assert!(store.emails().is_empty());
    let mut store = store_with_challenge(false);
    assert_eq!(
        consume_for_parent_permission(&mut store, T0 + 1, s("h")).unwrap_err(),
        AuthError::VerificationChallengeWrongKind
    );
    assert!(store.parent_permissions().is_empty());
}

#[test]
fn unknown_token_is_nonexistent() {
    let mut store = store_with_challenge(false);
    assert_eq!(
        consume_for_email(&mut store, T0, s("unknown")).unwrap_err(),
        AuthError::VerificationChallengeNonexistent
    );
    assert_eq!(
        consume_for_parent_permission(&mut store, T0, s("unknown")).unwrap_err(),
        AuthError::VerificationChallengeNonexistent
    );
}

#[test]
fn challenge_is_accepted_at_the_boundary_and_times_out_after_it() {
    let mut store = store_with_challenge(false);
    assert_eq!(
        consume_for_email(&mut store, T0 + 900_001, s("h")).unwrap_err(),
        AuthError::VerificationChallengeTimedOut
    );
    assert!(store.emails().is_empty());
    let e = consume_for_email(&mut store, T0 + 900_000, s("h")).unwrap();
    assert_eq!((e.email_id, e.creation_time, e.creator_user_id), (1, T0 + 900_000, 7));
    assert_eq!(e.verification_challenge_key_hash, "h");
    assert_eq!(store.emails().len(), 1);
    let mut store = store_with_challenge(true);
    assert_eq!(
        consume_for_parent_permission(&mut store, T0 + 900_001, s("h")).unwrap_err(),
        AuthError::VerificationChallengeTimedOut
    );
    let p = consume_for_parent_permission(&mut store, T0 + 900_000, s("h")).unwrap();
    assert_eq!((p.parent_permission_id, p.creation_time, p.user_id), (1, T0 + 900_000, 7));
    assert_eq!(p.verification_challenge_key_hash, Some(s("h")));
}

#[test]
fn a_timed_out_challenge_of_the_wrong_kind_is_timed_out() {
    let mut store = store_with_challenge(true);
    assert_eq!(
        consume_for_email(&mut store, T0 + 900_001, s("h")).unwrap_err(),
        AuthError::VerificationChallengeTimedOut
    );
}

#[test]
fn window_does_not_overflow_at_the_end_of_time() {
    let mut store = Store::new();
    verification_challenge_service::add(&mut store, i64::MAX, s("h"), s("a@x"), 7, false).unwrap();
    assert!(consume_for_email(&mut store, i64::MAX, s("h")).is_ok());
    let mut store = Store::new();
    verification_challenge_service::add(&mut store, i64::MIN, s("h"), s("a@x"), 7, false).unwrap();
    assert_eq!(
        consume_for_email(&mut store, i64::MAX, s("h")).unwrap_err(),
        AuthError::VerificationChallengeTimedOut
    );
}

#[test]
fn second_consumption_is_used() {
    let mut store = store_with_challenge(false);
    consume_for_email(&mut store, T0 + 10, s("h")).unwrap();
    assert_eq!(
        consume_for_email(&mut store, T0 + 20, s("h")).unwrap_err(),
        AuthError::VerificationChallengeUsed
    );
    assert_eq!(store.emails().len(), 1);
    let mut store = store_with_challenge(true);
    consume_for_parent_permission(&mut store, T0 + 10, s("h")).unwrap();
    assert_eq!(
        consume_for_parent_permission(&mut store, T0 + 20, s("h")).unwrap_err(),
        AuthError::VerificationChallengeUsed
    );
    assert_eq!(store.parent_permissions().len(), 1);
}

#[test]
fn second_consumption_after_the_window_is_timed_out() {
    let mut store = store_with_challenge(false);
    consume_for_email(&mut store, T0 + 10, s("h")).unwrap();
    assert_eq!(
        consume_for_email(&mut store, T0 + 900_001, s("h")).unwrap_err(),
        AuthError::VerificationChallengeTimedOut
    );
}

#[test]
fn an_address_is_confirmed_by_one_user_at_a_time() {
    let mut store = Store::new();
    verification_challenge_service::add(&mut store, T0, s("h1"), s("a@x"), 1, false).unwrap();
    verification_challenge_service::add(&mut store, T0, s("h2"), s("a@x"), 2, false).unwrap();
    consume_for_email(&mut store, T0, s("h1")).unwrap();
    assert_eq!(consume_for_email(&mut store, T0, s("h2")).unwrap_err(), AuthError::EmailExistent);
    assert_eq!(store.emails().len(), 1);
}

#[test]
fn email_new_confirms_with_the_raw_token() {
    let mut store = Store::new();
    let mut outbox = Vec::new();
    user_new(
        &config(),
        &mut store,
        &mut outbox,
        T0,
        new_user("bob", "bob@x.example", "longenough1", Some("parent@x.example")),
    )
    .unwrap();
    let own = challenge_token(&outbox[0]);
    let parent = challenge_token(&outbox[1]);
    // The parent's token confirms no email.
    let r = email_new(&mut store, T0 + 5, EmailNewProps { verification_challenge_key: parent.clone() });
    assert_eq!(r.unwrap_err(), AuthError::VerificationChallengeWrongKind);
    // The stored hash is no token.
    let stored = store.verification_challenges()[0].verification_challenge_key_hash.clone();
    let r = email_new(&mut store, T0 + 5, EmailNewProps { verification_challenge_key: stored });
    assert_eq!(r.unwrap_err(), AuthError::VerificationChallengeNonexistent);
    let r = email_new(&mut store, T0 + 5, EmailNewProps { verification_challenge_key: own.clone() })
        .unwrap();
    assert_eq!((r.email_id, r.creation_time, r.creator_user_id), (1, T0 + 5, 1));
    assert_eq!(r.verification_challenge.email, "bob@x.example");
    assert_eq!(r.verification_challenge.creation_time, T0);
    assert!(!r.verification_challenge.to_parent);
    let r = email_new(&mut store, T0 + 6, EmailNewProps { verification_challenge_key: own });
    assert_eq!(r.unwrap_err(), AuthError::VerificationChallengeUsed);
    // The own token authorizes no parent permission.
    let own_again = challenge_token(&outbox[0]);
    let r = parent_permission_new(
        &mut store,
        T0 + 7,
        ParentPermissionNewProps { verification_challenge_key: own_again },
    );
    assert_eq!(r.unwrap_err(), AuthError::VerificationChallengeWrongKind);
    let r = parent_permission_new(
        &mut store,
        T0 + 8,
        ParentPermissionNewProps { verification_challenge_key: parent.clone() },
    )
    .unwrap();
    assert_eq!((r.parent_permission_id, r.user_id, r.creation_time), (1, 1, T0 + 8));
    let vc = r.verification_challenge.unwrap();
    assert_eq!(vc.email, "parent@x.example");
    assert!(vc.to_parent);
    let r = parent_permission_new(
        &mut store,
        T0 + 9,
        ParentPermissionNewProps { verification_challenge_key: parent },
    );
    assert_eq!(r.unwrap_err(), AuthError::VerificationChallengeUsed);
}

// API keys

#[test]
fn issued_key_is_valid_until_its_duration_has_passed() {
    let (mut store, _) = store_with_user("alice@x.example", "longenough1");
    let t1 = T0 + 10_000;
    let key = login(&mut store, t1, "alice@x.example", "longenough1", 1000);
    let k = get_api_key_if_valid_noverify(&store, t1 + 500, &key).unwrap();
    assert_eq!(k.creator_user_id, 1);
    assert_eq!(k.api_key_kind, ApiKeyKind::Valid);
    assert_eq!(k.duration, 1000);
    assert_eq!(k.creation_time, t1);
    assert_eq!(k.api_key_hash, hash_str(&key));
    assert!(get_api_key_if_valid_noverify(&store, t1 + 1000, &key).is_ok());
    assert_eq!(
        get_api_key_if_valid_noverify(&store, t1 + 1001, &key).unwrap_err(),
        AuthError::ApiKeyUnauthorized
    );
    assert_eq!(
        get_api_key_if_valid_noverify(&store, t1 + 1500, &key).unwrap_err(),
        AuthError::ApiKeyUnauthorized
    );
}

#[test]
fn the_raw_key_is_answered_once_and_only_its_hash_is_stored() {
    let (mut store, _) = store_with_user("alice@x.example", "longenough1");
    let before = store.api_keys().len();
    let r = api_key_new_valid(
        &mut store,
        T0 + 1,
        ApiKeyNewValidProps {
            user_email: s("alice@x.example"),
            user_password: s("longenough1"),
            duration: 77,
        },
    )
    .unwrap();
    assert_eq!(store.api_keys().len(), before + 1);
    assert_eq!(r.api_key_id, before as i64 + 1);
    assert_eq!(r.creation_time, T0 + 1);
    assert_eq!(r.creator_user_id, 1);
    let key = match r.api_key_data {
        ApiKeyData::Valid { duration, key } => {
            assert_eq!(duration, 77);
            key.unwrap()
        }
        ApiKeyData::Cancel => panic!("a cancel row was issued"),
    };
    assert_eq!(key.len(), 43);
    let row = store.api_keys().last().unwrap();
    assert_eq!(row.api_key_hash, hash_str(&key));
    assert_ne!(row.api_key_hash, key);
}

#[test]
fn login_errors() {
    let (mut store, _) = store_with_user("alice@x.example", "longenough1");
    let attempt = |store: &mut Store, email: &str, password: &str| {
        api_key_new_valid(
            store,
            T0 + 1,
            ApiKeyNewValidProps { user_email: s(email), user_password: s(password), duration: 5 },
        )
    };
    let n = store.api_keys().len();
    assert_eq!(
        attempt(&mut store, "nobody@x.example", "longenough1").unwrap_err(),
        AuthError::EmailNonexistent
    );
    assert_eq!(
        attempt(&mut store, "alice@x.example", "longenough2").unwrap_err(),
        AuthError::PasswordIncorrect
    );
    assert_eq!(store.api_keys().len(), n);
    assert!(attempt(&mut store, "alice@x.example", "longenough1").is_ok());
}

#[test]
fn login_without_a_password_row_is_password_nonexistent() {
    let mut store = Store::new();
    verification_challenge_service::add(&mut store, T0, s("h"), s("a@x"), 7, false).unwrap();
    email_service::add(&mut store, T0, 7, s("h")).unwrap();
    assert_eq!(find_credentials(&store, "a@x").unwrap_err(), AuthError::PasswordNonexistent);
    let r = api_key_new_valid(
        &mut store,
        T0,
        ApiKeyNewValidProps { user_email: s("a@x"), user_password: s("longenough1"), duration: 5 },
    );
    assert_eq!(r.unwrap_err(), AuthError::PasswordNonexistent);
}

#[test]
fn login_against_a_broken_hash_is_unknown() {
    let mut store = Store::new();
    verification_challenge_service::add(&mut store, T0, s("h"), s("a@x"), 7, false).unwrap();
    email_service::add(&mut store, T0, 7, s("h")).unwrap();
    password_service::add(&mut store, T0, 7, s("no hash at all"), None).unwrap();
    let r = api_key_new_valid(
        &mut store,
        T0,
        ApiKeyNewValidProps { user_email: s("a@x"), user_password: s("longenough1"), duration: 5 },
    );
    assert_eq!(r.unwrap_err(), AuthError::Unknown);
    assert!(store.api_keys().is_empty());
}

#[test]
fn login_is_refused_before_the_address_is_confirmed() {
    let mut store = Store::new();
    let mut outbox = Vec::new();
    user_new(
        &config(),
        &mut store,
        &mut outbox,
        T0,
        new_user("bob", "bob@x.example", "longenough1", None),
    )
    .unwrap();
    let r = api_key_new_valid(
        &mut store,
        T0,
        ApiKeyNewValidProps {
            user_email: s("bob@x.example"),
            user_password: s("longenough1"),
            duration: 5,
        },
    );
    assert_eq!(r.unwrap_err(), AuthError::EmailNonexistent);
}

#[test]
fn issue_valid_stores_the_hash_of_the_raw_key() {
    let mut store = Store::new();
    let r = issue_valid(&mut store, T0, 3, s("raw key"), 60).unwrap();
    assert_eq!((r.api_key_id, r.creation_time, r.creator_user_id), (1, T0, 3));
    match r.api_key_data {
        ApiKeyData::Valid { duration, key } => {
            assert_eq!(duration, 60);
            assert_eq!(key, Some(s("raw key")));
        }
        ApiKeyData::Cancel => panic!("a cancel row was issued"),
    }
    assert_eq!(store.api_keys()[0].api_key_hash, hash_str("raw key"));
    assert!(get_api_key_if_valid_noverify(&store, T0 + 60, "raw key").is_ok());
}

#[test]
fn unknown_key_is_nonexistent() {
    let (store, _) = store_with_user("alice@x.example", "longenough1");
    assert_eq!(
        get_api_key_if_valid_noverify(&store, T0, "no such key").unwrap_err(),
        AuthError::ApiKeyNonexistent
    );
    assert_eq!(
        get_api_key_if_verified(&store, T0, "no such key").unwrap_err(),
        AuthError::ApiKeyNonexistent
    );
}

#[test]
fn key_whose_latest_row_is_cancel_is_unauthorized() {
    let mut store = Store::new();
    api_key_service::add(&mut store, T0, 1, s("kh"), ApiKeyKind::Valid, 1_000_000).unwrap();
    assert!(resolve_valid_noverify(&store, T0 + 1, "kh").is_ok());
    api_key_service::add(&mut store, T0 + 1, 1, s("kh"), ApiKeyKind::Cancel, 0).unwrap();
    // Also in the millisecond of the cancellation, which a check of the
    // duration alone would let pass.
    assert_eq!(
        resolve_valid_noverify(&store, T0 + 1, "kh").unwrap_err(),
        AuthError::ApiKeyUnauthorized
    );
    assert_eq!(
        resolve_valid_noverify(&store, T0, "kh").unwrap_err(),
        AuthError::ApiKeyUnauthorized
    );
    assert_eq!(
        resolve_valid_noverify(&store, T0 + 2, "kh").unwrap_err(),
        AuthError::ApiKeyUnauthorized
    );
}

#[test]
fn verified_resolution_needs_a_parent_permission() {
    let mut store = Store::new();
    api_key_service::add(&mut store, T0, 1, s("kh"), ApiKeyKind::Valid, 1000).unwrap();
    assert!(resolve_valid_noverify(&store, T0, "kh").is_ok());
    assert_eq!(
        resolve_verified(&store, T0, "kh").unwrap_err(),
        AuthError::ParentPermissionNonexistent
    );
    parent_permission_service::add(&mut store, T0, 1, None).unwrap();
    assert_eq!(resolve_verified(&store, T0, "kh").unwrap().api_key_id, 1);
    assert_eq!(
        resolve_verified(&store, T0 + 1001, "kh").unwrap_err(),
        AuthError::ApiKeyUnauthorized
    );
}

#[test]
fn negative_duration_is_expired_at_once() {
    let mut store = Store::new();
    api_key_service::add(&mut store, T0, 1, s("kh"), ApiKeyKind::Valid, -1).unwrap();
    assert_eq!(
        resolve_valid_noverify(&store, T0, "kh").unwrap_err(),
        AuthError::ApiKeyUnauthorized
    );
    assert!(resolve_valid_noverify(&store, T0 - 1, "kh").is_ok());
}

#[test]
fn lifetime_does_not_overflow() {
    let mut store = Store::new();
    api_key_service::add(&mut store, i64::MAX, 1, s("kh"), ApiKeyKind::Valid, i64::MAX).unwrap();
    assert!(resolve_valid_noverify(&store, i64::MAX, "kh").is_ok());
}

#[test]
fn cancel_revokes_the_target_and_keeps_history() {
    let (mut store, key_a) = store_with_user("alice@x.example", "longenough1");
    let key_b = login(&mut store, T0 + 1, "alice@x.example", "longenough1", 3_600_000);
    let n = store.api_keys().len();
    let r = api_key_new_cancel(
        &mut store,
        T0 + 2,
        ApiKeyNewCancelProps { api_key: key_a.clone(), api_key_to_cancel: key_b.clone() },
    )
    .unwrap();
    assert_eq!(r.api_key_id, n as i64 + 1);
    assert_eq!(r.creation_time, T0 + 2);
    assert_eq!(r.creator_user_id, 1);
    assert!(matches!(r.api_key_data, ApiKeyData::Cancel));
    assert_eq!(store.api_keys().len(), n + 1);
    let row = store.api_keys().last().unwrap();
    assert_eq!(row.api_key_kind, ApiKeyKind::Cancel);
    assert_eq!(row.api_key_hash, hash_str(&key_b));
    assert_eq!(row.duration, 0);
    // The earlier rows are as they were.
    assert_eq!(store.api_keys()[n - 1].api_key_kind, ApiKeyKind::Valid);
    assert_eq!(
        get_api_key_if_valid_noverify(&store, T0 + 2, &key_b).unwrap_err(),
        AuthError::ApiKeyUnauthorized
    );
    assert!(get_api_key_if_valid_noverify(&store, T0 + 2, &key_a).is_ok());
    // A cancelled key cancels nothing.
    let r = api_key_new_cancel(
        &mut store,
        T0 + 3,
        ApiKeyNewCancelProps { api_key: key_b, api_key_to_cancel: key_a },
    );
    assert_eq!(r.unwrap_err(), AuthError::ApiKeyUnauthorized);
    assert_eq!(store.api_keys().len(), n + 1);
}

#[test]
fn a_key_can_cancel_itself() {
    let (mut store, key) = store_with_user("alice@x.example", "longenough1");
    api_key_new_cancel(
        &mut store,
        T0 + 2,
        ApiKeyNewCancelProps { api_key: key.clone(), api_key_to_cancel: key.clone() },
    )
    .unwrap();
    assert_eq!(
        get_api_key_if_valid_noverify(&store, T0 + 2, &key).unwrap_err(),
        AuthError::ApiKeyUnauthorized
    );
}

#[test]
fn cancel_across_owners_is_unauthorized_and_stores_nothing() {
    let (mut store, key_alice) = store_with_user("alice@x.example", "longenough1");
    let key_dave = add_user(&mut store, T0 + 1, "dave", "dave@x.example", "longenough2");
    let n = store.api_keys().len();
    let r = api_key_new_cancel(
        &mut store,
        T0 + 2,
        ApiKeyNewCancelProps { api_key: key_alice.clone(), api_key_to_cancel: key_dave.clone() },
    );
    assert_eq!(r.unwrap_err(), AuthError::ApiKeyUnauthorized);
    assert_eq!(store.api_keys().len(), n);
    assert!(get_api_key_if_valid_noverify(&store, T0 + 2, &key_dave).is_ok());
    let r = cancel(&mut store, T0 + 2, &hash_str(&key_dave), &hash_str(&key_alice));
    assert_eq!(r.unwrap_err(), AuthError::ApiKeyUnauthorized);
    assert_eq!(store.api_keys().len(), n);
}

#[test]
fn cancel_needs_both_keys_to_resolve() {
    let (mut store, key) = store_with_user("alice@x.example", "longenough1");
    let n = store.api_keys().len();
    let r = api_key_new_cancel(
        &mut store,
        T0 + 2,
        ApiKeyNewCancelProps { api_key: key.clone(), api_key_to_cancel: s("unknown") },
    );
    assert_eq!(r.unwrap_err(), AuthError::ApiKeyNonexistent);
    let r = api_key_new_cancel(
        &mut store,
        T0 + 2,
        ApiKeyNewCancelProps { api_key: s("unknown"), api_key_to_cancel: key.clone() },
    );
    assert_eq!(r.unwrap_err(), AuthError::ApiKeyNonexistent);
    let r = api_key_new_cancel(
        &mut store,
        T0 + 3_600_001,
        ApiKeyNewCancelProps { api_key: key.clone(), api_key_to_cancel: key },
    );
    assert_eq!(r.unwrap_err(), AuthError::ApiKeyUnauthorized);
    assert_eq!(store.api_keys().len(), n);
}

#[test]
fn cancel_needs_a_parent_permission() {
    let mut store = Store::new();
    let mut outbox = Vec::new();
    user_new(
        &config(),
        &mut store,
        &mut outbox,
        T0,
        new_user("bob", "bob@x.example", "longenough1", Some("parent@x.example")),
    )
    .unwrap();
    email_new(
        &mut store,
        T0,
        EmailNewProps { verification_challenge_key: challenge_token(&outbox[0]) },
    )
    .unwrap();
    let key = login(&mut store, T0, "bob@x.example", "longenough1", 1000);
    let r = api_key_new_cancel(
        &mut store,
        T0 + 1,
        ApiKeyNewCancelProps { api_key: key.clone(), api_key_to_cancel: key.clone() },
    );
    assert_eq!(r.unwrap_err(), AuthError::ParentPermissionNonexistent);
    parent_permission_new(
        &mut store,
        T0 + 1,
        ParentPermissionNewProps { verification_challenge_key: challenge_token(&outbox[1]) },
    )
    .unwrap();
    assert!(get_api_key_if_verified(&store, T0 + 1, &key).is_ok());
}

// Requests for challenges

fn challenge_props(key: &str, email: &str, to_parent: bool) -> VerificationChallengeNewProps {
    VerificationChallengeNewProps { email: s(email), to_parent, api_key: s(key) }
}

#[test]
fn challenge_request_sends_a_mail_and_stores_the_hash() {
    let (mut store, key) = store_with_user("alice@x.example", "longenough1");
    let mut outbox = Vec::new();
    let later = T0 + FIFTEEN_MINUTES;
    let r = verification_challenge_new(
        &config(),
        &mut store,
        &mut outbox,
        later,
        challenge_props(&key, "new@x.example", false),
    )
    .unwrap();
    assert_eq!(r.creation_time, later);
    assert_eq!(r.email, "new@x.example");
    assert!(!r.to_parent);
    assert_eq!(outbox.len(), 1);
    assert_eq!(outbox[0].destination, "new@x.example");
    assert_eq!(outbox[0].topic, "verification_challenge");
    assert!(outbox[0].content.contains("<code>alice</code>"));
    let row = store.verification_challenges().last().unwrap();
    assert_eq!(row.verification_challenge_key_hash, hash_str(&challenge_token(&outbox[0])));
    assert_eq!(row.creator_user_id, 1);
}

#[test]
fn challenge_request_errors() {
    let (mut store, key) = store_with_user("alice@x.example", "longenough1");
    let mut outbox = Vec::new();
    let n = store.verification_challenges().len();
    let cfg = config();
    let later = T0 + FIFTEEN_MINUTES;
    let r = verification_challenge_new(
        &cfg,
        &mut store,
        &mut outbox,
        later,
        challenge_props(&key, "", false),
    );
    assert_eq!(r.unwrap_err(), AuthError::EmailBounced);
    let r = verification_challenge_new(
        &cfg,
        &mut store,
        &mut outbox,
        later,
        challenge_props("unknown", "new@x.example", false),
    );
    assert_eq!(r.unwrap_err(), AuthError::ApiKeyNonexistent);
    // The user declared themselves of full age: a permission exists.
    let r = verification_challenge_new(
        &cfg,
        &mut store,
        &mut outbox,
        later,
        challenge_props(&key, "parent@x.example", true),
    );
    assert_eq!(r.unwrap_err(), AuthError::ParentPermissionExistent);
    // One millisecond before the fifteen minutes since the last challenge.
    let r = verification_challenge_new(
        &cfg,
        &mut store,
        &mut outbox,
        later - 1,
        challenge_props(&key, "new@x.example", false),
    );
    assert_eq!(r.unwrap_err(), AuthError::EmailUnknown);
    assert_eq!(store.verification_challenges().len(), n);
    assert!(outbox.is_empty());
}

#[test]
fn challenge_request_to_a_parent() {
    let mut store = Store::new();
    let mut outbox = Vec::new();
    user_new(
        &config(),
        &mut store,
        &mut outbox,
        T0,
        new_user("bob", "bob@x.example", "longenough1", Some("parent@x.example")),
    )
    .unwrap();
    email_new(
        &mut store,
        T0,
        EmailNewProps { verification_challenge_key: challenge_token(&outbox[0]) },
    )
    .unwrap();
    let key = login(&mut store, T0, "bob@x.example", "longenough1", 3_600_000);
    let mut outbox = Vec::new();
    let r = verification_challenge_new(
        &config(),
        &mut store,
        &mut outbox,
        T0 + FIFTEEN_MINUTES,
        challenge_props(&key, "other-parent@x.example", true),
    )
    .unwrap();
    assert!(r.to_parent);
    assert_eq!(outbox[0].topic, "parent_permission");
    assert_eq!(outbox[0].destination, "other-parent@x.example");
    assert_eq!(outbox[0].title, "https://site.example: Parent Permission For bob");
    let r = parent_permission_new(
        &mut store,
        T0 + FIFTEEN_MINUTES,
        ParentPermissionNewProps { verification_challenge_key: challenge_token(&outbox[0]) },
    )
    .unwrap();
    assert_eq!(r.user_id, 1);
}

#[test]
fn issue_without_a_name_is_user_data_nonexistent() {
    let mut store = Store::new();
    api_key_service::add(&mut store, T0, 5, s("kh"), ApiKeyKind::Valid, 1000).unwrap();
    let r = issue(&mut store, T0, "kh", s("a@x"), false, s("h"));
    assert_eq!(r.unwrap_err(), AuthError::UserDataNonexistent);
    user_data_service::add(&mut store, T0, 5, s("eve")).unwrap();
    let (c, d) = issue(&mut store, T0, "kh", s("a@x"), false, s("h")).unwrap();
    assert_eq!(d.name, "eve");
    assert_eq!(c.verification_challenge_key_hash, "h");
    assert_eq!((c.creation_time, c.creator_user_id, c.to_parent), (T0, 5, false));
    // The same hash again, after the cooldown.
    let r = issue(&mut store, T0 + FIFTEEN_MINUTES, "kh", s("a@x"), false, s("h"));
    assert_eq!(r.unwrap_err(), AuthError::ApiKeyUnauthorized);
    api_key_service::add(&mut store, T0, 5, s("kh2"), ApiKeyKind::Valid, 10_000_000).unwrap();
    let r = issue(&mut store, T0 + FIFTEEN_MINUTES, "kh2", s("a@x"), false, s("h"));
    assert_eq!(r.unwrap_err(), AuthError::InternalServerError);
    assert_eq!(store.verification_challenges().len(), 1);
}

// Names

#[test]
fn user_data_new_renames_the_owner_of_the_key() {
    let (mut store, key) = store_with_user("alice@x.example", "longenough1");
    let r = user_data_new(
        &mut store,
        T0 + 5,
        UserDataNewProps { user_name: s("alicia"), api_key: key },
    )
    .unwrap();
    assert_eq!((r.user_data_id, r.creation_time, r.creator_user_id), (2, T0 + 5, 1));
    assert_eq!(r.name, "alicia");
    assert_eq!(user_data_service::get_by_user_id(&store, 1).unwrap().name, "alicia");
    let r = user_data_new(
        &mut store,
        T0 + 5,
        UserDataNewProps { user_name: s("mallory"), api_key: s("unknown") },
    );
    assert_eq!(r.unwrap_err(), AuthError::ApiKeyNonexistent);
    assert_eq!(store.user_data().len(), 2);
}

// Passwords

fn reset_token(mail: &MailNewProps) -> String {
    token(mail, "resetKey=")
}

fn request_reset_for(store: &mut Store, now: i64, email: &str) -> String {
    let mut outbox = Vec::new();
    password_reset_new(
        &config(),
        store,
        &mut outbox,
        now,
        PasswordResetNewProps { user_email: s(email) },
    )
    .unwrap();
    reset_token(&outbox[0])
}

#[test]
fn password_reset_request_sends_a_mail_and_stores_the_hash() {
    let (mut store, _) = store_with_user("alice@x.example", "longenough1");
    let mut outbox = Vec::new();
    let r = password_reset_new(
        &config(),
        &mut store,
        &mut outbox,
        T0 + 3,
        PasswordResetNewProps { user_email: s("alice@x.example") },
    )
    .unwrap();
    assert_eq!(r.creation_time, T0 + 3);
    assert_eq!(outbox.len(), 1);
    assert_eq!(outbox[0].request_id, 0);
    assert_eq!(outbox[0].destination, "alice@x.example");
    assert_eq!(outbox[0].topic, "password_reset");
    assert_eq!(outbox[0].title, "https://site.example: Password Reset");
    let key = reset_token(&outbox[0]);
    assert_eq!(
        outbox[0].content,
        format!(
            "<p>Requested password reset service: </p>\
             <p>If you did not make this request, then feel free to ignore.</p>\
             <p>This link is valid for up to 15 minutes.</p>\
             <p>Do not share this link with others.</p>\
             <p>Password change link: https://site.example/reset_password?resetKey={}</p>",
            key
        )
    );
    let row = &store.password_resets()[0];
    assert_eq!(row.password_reset_key_hash, hash_str(&key));
    assert_eq!((row.creation_time, row.creator_user_id), (T0 + 3, 1));
}

#[test]
fn password_reset_request_for_an_unknown_address() {
    let (mut store, _) = store_with_user("alice@x.example", "longenough1");
    let mut outbox = Vec::new();
    let r = password_reset_new(
        &config(),
        &mut store,
        &mut outbox,
        T0,
        PasswordResetNewProps { user_email: s("nobody@x.example") },
    );
    assert_eq!(r.unwrap_err(), AuthError::EmailNonexistent);
    assert!(outbox.is_empty());
    assert!(store.password_resets().is_empty());
}

#[test]
fn request_reset_refuses_a_taken_hash() {
    let (mut store, _) = store_with_user("alice@x.example", "longenough1");
    request_reset(&mut store, T0, "alice@x.example", s("rh")).unwrap();
    assert_eq!(
        request_reset(&mut store, T0, "alice@x.example", s("rh")).unwrap_err(),
        AuthError::InternalServerError
    );
    assert_eq!(store.password_resets().len(), 1);
}

#[test]
fn password_reset_sets_a_new_password_once() {
    let (mut store, _) = store_with_user("alice@x.example", "longenough1");
    let key = request_reset_for(&mut store, T0 + 10, "alice@x.example");
    let r = password_new_reset(
        &mut store,
        T0 + 20,
        PasswordNewResetProps { password_reset_key: key.clone(), new_password: s("evenlonger2") },
    )
    .unwrap();
    assert_eq!((r.password_id, r.creation_time, r.creator_user_id), (2, T0 + 20, 1));
    assert_eq!(r.password_reset.unwrap().creation_time, T0 + 10);
    let row = store.passwords().last().unwrap();
    assert_eq!(row.password_reset_key_hash, Some(hash_str(&key)));
    assert!(verify_password("evenlonger2", &row.password_hash).unwrap());
    // The new password logs in, the old one does not.
    login(&mut store, T0 + 30, "alice@x.example", "evenlonger2", 10);
    let r = api_key_new_valid(
        &mut store,
        T0 + 30,
        ApiKeyNewValidProps {
            user_email: s("alice@x.example"),
            user_password: s("longenough1"),
            duration: 10,
        },
    );
    assert_eq!(r.unwrap_err(), AuthError::PasswordIncorrect);
    // The token serves once.
    let r = password_new_reset(
        &mut store,
        T0 + 40,
        PasswordNewResetProps { password_reset_key: key.clone(), new_password: s("yetanother3") },
    );
    assert_eq!(r.unwrap_err(), AuthError::PasswordExistent);
    // Also after the window, and with a password that the policy refuses.
    let r = password_new_reset(
        &mut store,
        T0 + 10 + FIFTEEN_MINUTES + 1,
        PasswordNewResetProps { password_reset_key: key, new_password: s("short") },
    );
    assert_eq!(r.unwrap_err(), AuthError::PasswordExistent);
    assert_eq!(store.passwords().len(), 2);
}

#[test]
fn password_reset_errors() {
    let (mut store, _) = store_with_user("alice@x.example", "longenough1");
    let key = request_reset_for(&mut store, T0 + 10, "alice@x.example");
    let attempt = |store: &mut Store, now: i64, key: &str, password: &str| {
        password_new_reset(
            store,
            now,
            PasswordNewResetProps { password_reset_key: s(key), new_password: s(password) },
        )
    };
    assert_eq!(
        attempt(&mut store, T0 + 20, "unknown", "evenlonger2").unwrap_err(),
        AuthError::PasswordResetNonexistent
    );
    assert_eq!(
        attempt(&mut store, T0 + 10 + 900_001, &key, "evenlonger2").unwrap_err(),
        AuthError::PasswordResetTimedOut
    );
    // Timed out is reported before an insecure password.
    assert_eq!(
        attempt(&mut store, T0 + 10 + 900_001, &key, "short").unwrap_err(),
        AuthError::PasswordResetTimedOut
    );
    assert_eq!(
        attempt(&mut store, T0 + 20, &key, "short1").unwrap_err(),
        AuthError::PasswordInsecure
    );
    assert_eq!(
        attempt(&mut store, T0 + 20, &key, "longenough").unwrap_err(),
        AuthError::PasswordInsecure
    );
    assert_eq!(store.passwords().len(), 1);
    // The last millisecond of the window is inside.
    assert!(attempt(&mut store, T0 + 10 + 900_000, &key, "evenlonger2").is_ok());
}

#[test]
fn check_reset_decides_on_hashes() {
    let mut store = Store::new();
    password_reset_service::add(&mut store, T0, s("rh"), 4).unwrap();
    assert_eq!(check_reset(&store, T0, "rh", "longenough1").unwrap().creator_user_id, 4);
    assert_eq!(
        check_reset(&store, T0, "other", "longenough1").unwrap_err(),
        AuthError::PasswordResetNonexistent
    );
    let p = set_password(&mut store, T0 + 1, 4, s("pwhash"), Some(s("rh"))).unwrap();
    assert_eq!((p.password_id, p.creation_time, p.creator_user_id), (1, T0 + 1, 4));
    assert_eq!(p.password_hash, "pwhash");
    assert_eq!(
        check_reset(&store, T0 + 2, "rh", "longenough1").unwrap_err(),
        AuthError::PasswordExistent
    );
}

#[test]
fn password_change_needs_a_valid_key_and_a_secure_password() {
    let (mut store, key) = store_with_user("alice@x.example", "longenough1");
    let attempt = |store: &mut Store, now: i64, key: &str, password: &str| {
        password_new_change(
            store,
            now,
            PasswordNewChangeProps { new_password: s(password), api_key: s(key) },
        )
    };
    assert_eq!(
        attempt(&mut store, T0 + 1, "unknown", "evenlonger2").unwrap_err(),
        AuthError::ApiKeyNonexistent
    );
    assert_eq!(
        attempt(&mut store, T0 + 3_600_001, &key, "evenlonger2").unwrap_err(),
        AuthError::ApiKeyUnauthorized
    );
    assert_eq!(
        attempt(&mut store, T0 + 1, &key, "short1").unwrap_err(),
        AuthError::PasswordInsecure
    );
    assert_eq!(store.passwords().len(), 1);
    let r = attempt(&mut store, T0 + 1, &key, "evenlonger2").unwrap();
    assert_eq!((r.password_id, r.creation_time, r.creator_user_id), (2, T0 + 1, 1));
    assert!(r.password_reset.is_none());
    assert!(verify_password(
        "evenlonger2",
        &password_service::get_by_user_id(&store, 1).unwrap().password_hash
    )
    .unwrap());
}

// Users

#[test]
fn user_lookups() {
    let (store, key) = store_with_user("alice@x.example", "longenough1");
    let u = get_user_by_id(&store, GetUserByIdProps { user_id: 1 }).unwrap();
    assert_eq!((u.user_id, u.creation_time), (1, T0));
    assert_eq!(
        get_user_by_id(&store, GetUserByIdProps { user_id: 2 }).unwrap_err(),
        AuthError::UserNonexistent
    );
    let u = get_user_by_api_key_if_valid(&store, T0, GetUserByApiKeyIfValid { api_key: key.clone() })
        .unwrap();
    assert_eq!(u.user_id, 1);
    assert_eq!(
        get_user_by_api_key_if_valid(
            &store,
            T0 + 3_600_001,
            GetUserByApiKeyIfValid { api_key: key }
        )
        .unwrap_err(),
        AuthError::ApiKeyUnauthorized
    );
    assert_eq!(
        get_user_by_api_key_if_valid(&store, T0, GetUserByApiKeyIfValid { api_key: s("unknown") })
            .unwrap_err(),
        AuthError::ApiKeyNonexistent
    );
}

#[test]
fn key_of_a_user_that_is_not_stored() {
    let mut store = Store::new();
    api_key_service::add(&mut store, T0, 9, s(&hash_str("k")), ApiKeyKind::Valid, 1000).unwrap();
    parent_permission_service::add(&mut store, T0, 9, None).unwrap();
    assert_eq!(
        get_user_by_api_key_if_valid(&store, T0, GetUserByApiKeyIfValid { api_key: s("k") })
            .unwrap_err(),
        AuthError::UserNonexistent
    );
    user_service::add(&mut store, T0).unwrap();
    assert_eq!(
        get_user_by_api_key_if_valid(&store, T0, GetUserByApiKeyIfValid { api_key: s("k") })
            .unwrap_err(),
        AuthError::UserNonexistent
    );
}
