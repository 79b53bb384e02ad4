use rand::{thread_rng, Rng};
use sha2::{Digest, Sha256};
use std::time::{Duration, SystemTime, SystemTimeError, UNIX_EPOCH};
use vstd::prelude::*;
use vstd::std_specs::iter::IteratorSpec;
use vstd::string::*;
use vstd::utf8::*;

verus! {

/// The SHA-256 digest of `data`.
pub uninterp spec fn sha256_digest(data: Seq<u8>) -> Seq<u8>;

/// The URL-safe, unpadded Base64 text of `data`.
pub uninterp spec fn base64_url_encoding(data: Seq<u8>) -> Seq<char>;

/// The encoded Argon2 hash of `password` under `salt` with the default
/// parameters, or `None` where the parameters are rejected.
pub uninterp spec fn argon2_encoding(password: Seq<u8>, salt: Seq<u8>) -> Option<Seq<char>>;

/// Whether `password` matches the encoded Argon2 hash `encoded`, or `None`
/// where `encoded` cannot be decoded or names parameters that are rejected.
pub uninterp spec fn argon2_verification(encoded: Seq<char>, password: Seq<u8>) -> Option<bool>;

/// The error type of `argon2`, which verified code only passes on.
#[verifier::external_type_specification]
#[verifier::external_body]
pub struct ExArgon2Error(argon2::Error);

/// Number of random bytes behind a generated token or salt.
pub const RANDOM_BYTES: usize = 32;

/// Calls `Sha256::digest` of `sha2`. The digest is a function of the data
/// alone, named [`sha256_digest`], and is 32 bytes long.
#[verifier::external_body]
fn sha256(data: &[u8]) -> (digest: Vec<u8>)
    ensures
        digest@ == sha256_digest(data@),
        digest@.len() == 32,
{
    Sha256::digest(data).to_vec()
}

/// Calls `base64_url::encode`. The text is a function of the data alone, named
/// [`base64_url_encoding`]. The encoder panics when the encoded size overflows
/// `usize`, which the bound on the input's length excludes.
#[verifier::external_body]
fn base64_url_encode(data: &[u8]) -> (text: String)
    requires
        data@.len() <= usize::MAX / 2,
    ensures
        text@ == base64_url_encoding(data@),
{
    base64_url::encode(data)
}

/// Calls `Rng::gen` on `rand::thread_rng()` for an array of 32 bytes. Nothing
/// is known of the bytes but their number.
#[verifier::external_body]
fn random_bytes() -> (bytes: Vec<u8>)
    ensures
        bytes@.len() == RANDOM_BYTES,
{
    thread_rng().gen::<[u8; 32]>().to_vec()
}

/// Calls `argon2::hash_encoded` with `argon2::Config::default()`. The result is
/// a function of password and salt, named [`argon2_encoding`]. With the default
/// parameters the call only fails on a password or salt whose length is out of
/// range: a salt needs 8 bytes, and neither may exceed `u32::MAX` bytes.
#[verifier::external_body]
fn argon2_hash_encoded(password: &[u8], salt: &[u8]) -> (r: Result<String, argon2::Error>)
    ensures
        match r {
            Ok(encoded) => argon2_encoding(password@, salt@) == Some(encoded@),
            Err(_) => argon2_encoding(password@, salt@) is None,
        },
        password@.len() <= u32::MAX && 8 <= salt@.len() <= u32::MAX ==> r is Ok,
{
    argon2::hash_encoded(password, salt, &argon2::Config::default())
}

/// Calls `argon2::verify_encoded`. The result is a function of the encoded
/// hash and the password, named [`argon2_verification`].
#[verifier::external_body]
fn argon2_verify_encoded(encoded: &str, password: &[u8]) -> (r: Result<bool, argon2::Error>)
    ensures
        match r {
            Ok(matches) => argon2_verification(encoded@, password@) == Some(matches),
            Err(_) => argon2_verification(encoded@, password@) is None,
        },
{
    argon2::verify_encoded(encoded, password)
}

/// Calls `to_string` on an `argon2::Error`, which renders its message.
#[verifier::external_body]
fn argon2_error_message(e: &argon2::Error) -> (msg: String) {
    e.to_string()
}

/// The system clock's type of a point in time, which verified code only
/// passes on.
#[verifier::external_type_specification]
#[verifier::external_body]
pub struct ExSystemTime(SystemTime);

/// The error of a clock that reads a time before the one it is compared
/// with, which verified code only passes on.
#[verifier::external_type_specification]
#[verifier::external_body]
pub struct ExSystemTimeError(SystemTimeError);

/// `SystemTime::now` reads the system clock; nothing is known of the time.
pub assume_specification[ SystemTime::now ]() -> SystemTime;

/// `SystemTime::duration_since` gives the time elapsed since `earlier`, or an
/// error where `earlier` is the later of the two; nothing is known of which.
pub assume_specification[ SystemTime::duration_since ](
    time: &SystemTime,
    earlier: SystemTime,
) -> Result<Duration, SystemTimeError>;

/// `Duration::as_millis` gives the whole milliseconds of a duration; nothing
/// is known of their number.
pub assume_specification[ Duration::as_millis ](duration: &Duration) -> u128;

/// Hands out the constant `std::time::UNIX_EPOCH`.
#[verifier::external_body]
fn unix_epoch() -> (epoch: SystemTime) {
    UNIX_EPOCH
}

/// Why a password could not be hashed or verified.
#[derive(Clone, Debug)]
pub struct PasswordHashError {
    /// The message of the hashing primitive.
    pub msg: String,
}

/// The current time in milliseconds since the Unix epoch: what
/// [`time_from_elapsed`] makes of the reading of the system clock. Nothing
/// is known of the reading, so nothing more of the time.
pub fn current_time_millis() -> (now: i64)
    ensures
        now >= 0,
{
    let elapsed: Option<u128> = match SystemTime::now().duration_since(unix_epoch()) {
        Ok(since_the_epoch) => Some(since_the_epoch.as_millis()),
        Err(_) => None,
    };
    time_from_elapsed(elapsed)
}

/// The time that stands for a reading of the clock: the milliseconds
/// elapsed since the Unix epoch, `i64::MAX` where they are beyond the range
/// of `i64`, and 0 where the clock read a time before the epoch and gave no
/// number.
pub open spec fn time_of(elapsed: Option<u128>) -> i64 {
    match elapsed {
        Some(millis) => if millis <= i64::MAX {
            millis as i64
        } else {
            i64::MAX
        },
        None => 0,
    }
}

/// Turns a reading of the clock, the milliseconds elapsed since the Unix
/// epoch or none, into a time.
pub fn time_from_elapsed(elapsed: Option<u128>) -> (now: i64)
    ensures
        now == time_of(elapsed),
{
    match elapsed {
        Some(millis) => {
            if millis <= i64::MAX as u128 {
                millis as i64
            } else {
                i64::MAX
            }
        },
        None => 0,
    }
}

/// The text under which a secret is stored: the Base64 text of the SHA-256
/// digest of its UTF-8 bytes.
pub open spec fn hashed(key: Seq<char>) -> Seq<char> {
    base64_url_encoding(sha256_digest(encode_utf8(key)))
}

/// Whether `s` is the text of some 32 random bytes.
pub open spec fn is_token(s: Seq<char>) -> bool {
    exists|bytes: Seq<u8>| bytes.len() == RANDOM_BYTES && s == #[trigger] base64_url_encoding(bytes)
}

/// Generates a fresh secret: the Base64 text of 32 random bytes.
pub fn gen_random_string() -> (s: String)
    ensures
        is_token(s@),
{
    let bytes = random_bytes();
    base64_url_encode(bytes.as_slice())
}

/// Hashes a secret for storage.
pub fn hash_str(key: &str) -> (hash: String)
    ensures
        hash@ == hashed(key@),
{
    let digest = sha256(key.as_bytes());
    base64_url_encode(digest.as_slice())
}

/// Whether two strings hold the same characters.
pub fn str_eq(a: &str, b: &str) -> (same: bool)
    ensures
        same == (a@ == b@),
{
    let x = a.as_bytes();
    let y = b.as_bytes();
    proof {
        encode_utf8_decode_utf8(a@);
        encode_utf8_decode_utf8(b@);
    }
    if x.len() != y.len() {
        return false;
    }
    let mut i: usize = 0;
    while i < x.len()
        invariant
            i <= x@.len(),
            x@.len() == y@.len(),
            forall|j: int| 0 <= j < i ==> x@[j] == y@[j],
            a@ == b@ ==> x@ == y@,
        decreases x@.len() - i,
    {
        if x[i] != y[i] {
            return false;
        }
        i += 1;
    }
    assert(x@ =~= y@);
    true
}

/// Whether `c` counts as a numeric character to `char::is_numeric`, which
/// answers from the Unicode general categories for numbers.
pub uninterp spec fn is_numeric_char(c: char) -> bool;

/// `char::is_numeric` is a function of the character alone; its answer is
/// named [`is_numeric_char`].
pub assume_specification[ char::is_numeric ](c: char) -> (b: bool)
    ensures
        b == is_numeric_char(c),
;

/// Whether some character of `s` is numeric.
pub open spec fn has_numeric_char(s: Seq<char>) -> bool {
    exists|i: int| 0 <= i < s.len() && is_numeric_char(#[trigger] s[i])
}

/// Minimum length, in bytes of the UTF-8 encoding, of an acceptable password.
pub const MIN_PASSWORD_LENGTH: usize = 8;

/// The password policy: at least eight bytes long and at least one numeric
/// character.
pub open spec fn secure_password(password: Seq<char>) -> bool {
    vstd::utf8::encode_utf8(password).len() >= MIN_PASSWORD_LENGTH && has_numeric_char(password)
}

/// Decides whether `password` meets the password policy.
pub fn is_secure_password(password: &str) -> (secure: bool)
    ensures
        secure == secure_password(password@),
{
    let len: usize = password.as_bytes().len();
    let mut found: bool = false;
    for c in it: password.chars()
        invariant
            it.seq() == password@,
            found == has_numeric_char(password@.take(it.index() as int)),
    {
        proof {
            let i = it.index() as int;
            assert(password@.take(i + 1) == password@.take(i).push(c));
            lemma_has_numeric_char_push(password@.take(i), c);
        }
        if c.is_numeric() {
            found = true;
        }
    }
    assert(password@.take(password@.len() as int) == password@);
    len >= MIN_PASSWORD_LENGTH && found
}

proof fn lemma_has_numeric_char_push(s: Seq<char>, c: char)
    ensures
        has_numeric_char(s.push(c)) == (has_numeric_char(s) || is_numeric_char(c)),
{
    let t = s.push(c);
    if has_numeric_char(s) {
        let i = choose|i: int| 0 <= i < s.len() && is_numeric_char(#[trigger] s[i]);
        assert(t[i] == s[i]);
    }
    if is_numeric_char(c) {
        assert(t[s.len() as int] == c);
    }
    if has_numeric_char(t) {
        let i = choose|i: int| 0 <= i < t.len() && is_numeric_char(#[trigger] t[i]);
        if i < s.len() {
            assert(t[i] == s[i]);
        }
    }
}

/// Checks `password` against an encoded password hash.
pub fn verify_password(password: &str, password_hash: &str) -> (r: Result<bool, PasswordHashError>)
    ensures
        match r {
            Ok(matches) => argon2_verification(password_hash@, encode_utf8(password@)) == Some(
                matches,
            ),
            Err(_) => argon2_verification(password_hash@, encode_utf8(password@)) is None,
        },
{
    match argon2_verify_encoded(password_hash, password.as_bytes()) {
        Ok(matches) => Ok(matches),
        Err(e) => Err(PasswordHashError { msg: argon2_error_message(&e) }),
    }
}

/// Whether `hash` is an encoded hash of `password` under some salt of 32
/// bytes.
pub open spec fn is_password_hash(hash: Seq<char>, password: Seq<char>) -> bool {
    exists|salt: Seq<u8>|
        salt.len() == RANDOM_BYTES && #[trigger] argon2_encoding(encode_utf8(password), salt)
            == Some(hash)
}

/// Hashes `password` under a fresh random salt. This succeeds on every
/// password of at most `u32::MAX` bytes.
pub fn hash_password(password: &str) -> (r: Result<String, PasswordHashError>)
    ensures
        r matches Ok(hash) ==> is_password_hash(hash@, password@),
        encode_utf8(password@).len() <= u32::MAX ==> r is Ok,
{
    let salt = random_bytes();
    match argon2_hash_encoded(password.as_bytes(), salt.as_slice()) {
        Ok(hash) => Ok(hash),
        Err(e) => Err(PasswordHashError { msg: argon2_error_message(&e) }),
    }
}

/// How severe a logged event is.
#[derive(Clone, Copy, Debug, PartialEq, Eq, Structural)]
pub enum SeverityKind {
    Info,
    Warning,
    Error,
    Fatal,
}

impl SeverityKind {
    /// The number that stands for this severity.
    pub open spec fn code(self) -> u8 {
        match self {
            SeverityKind::Info => 0,
            SeverityKind::Warning => 1,
            SeverityKind::Error => 2,
            SeverityKind::Fatal => 3,
        }
    }

    /// The number that stands for this severity.
    pub fn to_u8(self) -> (val: u8)
        ensures
            val == self.code(),
    {
        match self {
            SeverityKind::Info => 0,
            SeverityKind::Warning => 1,
            SeverityKind::Error => 2,
            SeverityKind::Fatal => 3,
        }
    }

    /// The severity that `val` stands for; a number that stands for none is
    /// handed back.
    pub fn try_from(val: u8) -> (r: Result<SeverityKind, u8>)
        ensures
            match r {
                Ok(kind) => kind.code() == val,
                Err(x) => x == val && val > 3,
            },
    {
        if val == 0 {
            Ok(SeverityKind::Info)
        } else if val == 1 {
            Ok(SeverityKind::Warning)
        } else if val == 2 {
            Ok(SeverityKind::Error)
        } else if val == 3 {
            Ok(SeverityKind::Fatal)
        } else {
            Err(val)
        }
    }
}

/// An event for the service log.
#[derive(Clone, Debug)]
pub struct Event {
    pub msg: String,
    pub source: Option<String>,
    pub severity: SeverityKind,
}

} // verus!
