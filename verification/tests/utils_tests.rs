use auth_service::db_types::ApiKeyKind;
use auth_service::order::is_before;
use auth_service::utils::{
    current_time_millis, gen_random_string, hash_password, hash_str, str_eq, time_from_elapsed,
    verify_password, SeverityKind,
};

#[test]
fn hash_str_is_the_url_safe_base64_of_the_sha256_digest() {
    assert_eq!(hash_str("hello"), "LPJNul-wow4m6DsqxbninhsWHlwfp0JecwQzYpOLmCQ");
    assert_eq!(hash_str(""), "47DEQpj8HBSa-_TImW-5JCeuQeRkm5NMpJWZG3hSuFU");
}

#[test]
fn hash_str_is_a_function_of_its_argument() {
    assert_eq!(hash_str("a key"), hash_str("a key"));
    assert_ne!(hash_str("a key"), hash_str("another key"));
    assert_ne!(hash_str("a key"), "a key");
}

#[test]
fn hash_str_has_43_characters_and_no_padding() {
    let h = hash_str("whatever");
    assert_eq!(h.len(), 43);
    assert!(!h.contains('='));
    assert!(!h.contains('+'));
    assert!(!h.contains('/'));
}

#[test]
fn random_strings_are_url_safe_base64_of_32_bytes() {
    let s = gen_random_string();
    assert_eq!(s.len(), 43);
    assert!(s.chars().all(|c| c.is_ascii_alphanumeric() || c == '-' || c == '_'));
}

#[test]
fn random_strings_differ() {
    assert_ne!(gen_random_string(), gen_random_string());
}

#[test]
fn hashed_password_verifies() {
    let hash = hash_password("longenough1").unwrap();
    assert!(hash.starts_with("$argon2i$"));
    assert_ne!(hash, "longenough1");
    assert_eq!(verify_password("longenough1", &hash).unwrap(), true);
}

#[test]
fn other_password_does_not_verify() {
    let hash = hash_password("longenough1").unwrap();
    assert_eq!(verify_password("longenough2", &hash).unwrap(), false);
}

#[test]
fn known_hash_verifies() {
    let enc = "$argon2i$v=19$m=4096,t=3,p=1$c29tZXNhbHQ$iWh06vD8Fy27wf9npn6FXWiCX4K6pW6Ue1Bnzz07Z8A";
    assert_eq!(verify_password("password", enc).unwrap(), true);
    assert_eq!(verify_password("passwore", enc).unwrap(), false);
}

#[test]
fn each_hash_has_its_own_salt() {
    let a = hash_password("longenough1").unwrap();
    let b = hash_password("longenough1").unwrap();
    assert_ne!(a, b);
}

#[test]
fn verifying_against_what_is_no_hash_fails() {
    let r = verify_password("longenough1", "not a hash");
    assert!(r.is_err());
    assert!(!r.unwrap_err().msg.is_empty());
}

#[test]
fn clock_is_past_the_year_2020() {
    assert!(current_time_millis() > 1_577_836_800_000);
}

#[test]
fn str_eq_compares_characters() {
    assert!(str_eq("", ""));
    assert!(str_eq("abc", "abc"));
    assert!(!str_eq("abc", "abd"));
    assert!(!str_eq("abc", "ab"));
    assert!(!str_eq("ab", "abc"));
    assert!(str_eq("é1", "é1"));
}

#[test]
fn is_before_orders_as_strings_are_ordered() {
    let samples = ["", "a", "ab", "abc", "abd", "b", "B", "é", "z", "_", "-", "0"];
    for a in samples.iter() {
        for b in samples.iter() {
            assert_eq!(is_before(a, b), a < b);
        }
    }
}

#[test]
fn severity_kind_round_trips() {
    assert_eq!(SeverityKind::try_from(0), Ok(SeverityKind::Info));
    assert_eq!(SeverityKind::try_from(1), Ok(SeverityKind::Warning));
    assert_eq!(SeverityKind::try_from(2), Ok(SeverityKind::Error));
    assert_eq!(SeverityKind::try_from(3), Ok(SeverityKind::Fatal));
    assert_eq!(SeverityKind::try_from(4), Err(4));
    assert_eq!(SeverityKind::try_from(255), Err(255));
    assert_eq!(SeverityKind::Fatal.to_u8(), 3);
}

#[test]
fn api_key_kind_round_trips() {
    assert_eq!(ApiKeyKind::try_from(0), Ok(ApiKeyKind::Valid));
    assert_eq!(ApiKeyKind::try_from(1), Ok(ApiKeyKind::Cancel));
    assert_eq!(ApiKeyKind::try_from(2), Err(2));
    assert_eq!(ApiKeyKind::Valid.to_u8(), 0);
    assert_eq!(ApiKeyKind::Cancel.to_u8(), 1);
}

#[test]
fn elapsed_milliseconds_are_the_time() {
    assert_eq!(time_from_elapsed(Some(0)), 0);
    assert_eq!(time_from_elapsed(Some(1_700_000_000_000)), 1_700_000_000_000);
    assert_eq!(time_from_elapsed(Some(i64::MAX as u128)), i64::MAX);
}

#[test]
fn a_reading_beyond_the_range_is_the_last_time() {
    assert_eq!(time_from_elapsed(Some(i64::MAX as u128 + 1)), i64::MAX);
    assert_eq!(time_from_elapsed(Some(u128::MAX)), i64::MAX);
}

#[test]
fn a_clock_before_the_epoch_reads_zero() {
    assert_eq!(time_from_elapsed(None), 0);
}
