use auth_service::utils::is_secure_password;

#[test]
fn short_password_with_digit_is_insecure() {
    assert!(!is_secure_password("short1"));
}

#[test]
fn long_password_without_digit_is_insecure() {
    assert!(!is_secure_password("longenough"));
}

#[test]
fn long_password_with_digit_is_secure() {
    assert!(is_secure_password("longenough1"));
}

#[test]
fn empty_password_is_insecure() {
    assert!(!is_secure_password(""));
}

#[test]
fn eight_bytes_with_digit_is_the_shortest_secure_password() {
    assert!(is_secure_password("abcdefg1"));
    assert!(!is_secure_password("abcdef1"));
}

#[test]
fn digits_alone_are_secure_when_long_enough() {
    assert!(is_secure_password("12345678"));
    assert!(!is_secure_password("1234567"));
}

#[test]
fn length_counts_the_bytes_of_the_encoding() {
    // Four characters of two bytes each, and one digit: nine bytes.
    assert!(is_secure_password("éééé1"));
    // Three such characters and one digit: seven bytes.
    assert!(!is_secure_password("ééé1"));
}

#[test]
fn any_numeric_character_counts_as_a_digit() {
    // A full-width digit is numeric.
    assert!(is_secure_password("longenough１"));
    assert!(!is_secure_password("longenough!"));
}
