//! The typed results of the workflow operations.
use vstd::prelude::*;

verus! {

/// Why a workflow operation was refused.
#[derive(Clone, Copy, Debug, PartialEq, Eq, Structural)]
pub enum AuthError {
    ApiKeyUnauthorized,
    ApiKeyNonexistent,
    PasswordIncorrect,
    PasswordInsecure,
    PasswordExistent,
    PasswordNonexistent,
    PasswordResetNonexistent,
    PasswordResetTimedOut,
    UserNonexistent,
    UserDataNonexistent,
    UserNameEmpty,
    EmailExistent,
    EmailNonexistent,
    EmailBounced,
    EmailUnknown,
    VerificationChallengeNonexistent,
    VerificationChallengeTimedOut,
    VerificationChallengeUsed,
    VerificationChallengeWrongKind,
    ParentPermissionNonexistent,
    ParentPermissionExistent,
    DecodeError,
    MethodNotAllowed,
    InternalServerError,
    NotFound,
    Unknown,
}

/// A user.
#[derive(Debug)]
pub struct User {
    pub user_id: i64,
    pub creation_time: i64,
}

/// The name of a user at some time.
#[derive(Debug)]
pub struct UserData {
    pub user_data_id: i64,
    pub creation_time: i64,
    pub creator_user_id: i64,
    pub name: String,
}

/// A verification challenge, without its hash.
#[derive(Debug)]
pub struct VerificationChallenge {
    pub creation_time: i64,
    pub to_parent: bool,
    pub email: String,
}

/// A confirmed email address, with the challenge that confirmed it.
#[derive(Debug)]
pub struct Email {
    pub email_id: i64,
    pub creation_time: i64,
    pub creator_user_id: i64,
    pub verification_challenge: VerificationChallenge,
}

/// A parent permission, with the challenge that authorized it, if one did.
#[derive(Debug)]
pub struct ParentPermission {
    pub parent_permission_id: i64,
    pub creation_time: i64,
    pub user_id: i64,
    pub verification_challenge: Option<VerificationChallenge>,
}

/// A password reset, without its hash.
#[derive(Debug)]
pub struct PasswordReset {
    pub creation_time: i64,
}

/// A password without its hash, with the password reset that produced it,
/// if one did.
#[derive(Debug)]
pub struct Password {
    pub password_id: i64,
    pub creation_time: i64,
    pub creator_user_id: i64,
    pub password_reset: Option<PasswordReset>,
}

/// What an API key row discloses. The raw key of a `Valid` row is present
/// only in the answer to the request that issued it.
#[derive(Debug)]
pub enum ApiKeyData {
    Valid { duration: i64, key: Option<String> },
    Cancel,
}

/// An API key row.
#[derive(Debug)]
pub struct ApiKey {
    pub api_key_id: i64,
    pub creation_time: i64,
    pub creator_user_id: i64,
    pub api_key_data: ApiKeyData,
}

} // verus!
