//! The typed requests of the workflow operations.
use crate::db_types::ApiKeyKind;
use vstd::prelude::*;

verus! {

/// Asks for a valid API key that lasts `duration` milliseconds.
#[derive(Debug)]
pub struct ApiKeyNewValidProps {
    pub user_email: String,
    pub user_password: String,
    pub duration: i64,
}

/// Asks to cancel an API key with another key of the same user.
#[derive(Debug)]
pub struct ApiKeyNewCancelProps {
    pub api_key_to_cancel: String,
    pub api_key: String,
}

/// Asks to send a verification challenge to an address.
#[derive(Debug)]
pub struct VerificationChallengeNewProps {
    pub email: String,
    pub to_parent: bool,
    pub api_key: String,
}

/// Asks to register a user. A user who needs a parent's permission names the
/// parent's address.
#[derive(Debug)]
pub struct UserNewProps {
    pub user_name: String,
    pub user_email: String,
    pub user_password: String,
    pub parent_email: Option<String>,
}

/// Asks to give the owner of the API key a new name.
#[derive(Debug)]
pub struct UserDataNewProps {
    pub user_name: String,
    pub api_key: String,
}

/// Asks to confirm an email address with the token of a challenge.
#[derive(Debug)]
pub struct EmailNewProps {
    pub verification_challenge_key: String,
}

/// Asks to record a parent's permission with the token of a challenge.
#[derive(Debug)]
pub struct ParentPermissionNewProps {
    pub verification_challenge_key: String,
}

/// Asks to start the recovery of the password of the user with this address.
#[derive(Debug)]
pub struct PasswordResetNewProps {
    pub user_email: String,
}

/// Asks to set a new password with the token of a password reset.
#[derive(Debug)]
pub struct PasswordNewResetProps {
    pub password_reset_key: String,
    pub new_password: String,
}

/// Asks to change the password of the owner of the API key.
#[derive(Debug)]
pub struct PasswordNewChangeProps {
    pub new_password: String,
    pub api_key: String,
}

/// Asks for the users that pass the filters.
#[derive(Debug)]
pub struct UserViewProps {
    pub user_id: Option<Vec<i64>>,
    pub min_creation_time: Option<i64>,
    pub max_creation_time: Option<i64>,
    pub api_key: String,
}

/// Asks for the user data rows that pass the filters; with `only_recent`,
/// only for the latest row of each user.
#[derive(Debug)]
pub struct UserDataViewProps {
    pub user_data_id: Option<Vec<i64>>,
    pub min_creation_time: Option<i64>,
    pub max_creation_time: Option<i64>,
    pub creator_user_id: Option<Vec<i64>>,
    pub name: Option<Vec<String>>,
    pub only_recent: bool,
    pub api_key: String,
}

/// Asks for the email rows that pass the filters; with `only_recent`, only
/// for the latest row of each user.
#[derive(Debug)]
pub struct EmailViewProps {
    pub email_id: Option<Vec<i64>>,
    pub min_creation_time: Option<i64>,
    pub max_creation_time: Option<i64>,
    pub creator_user_id: Option<Vec<i64>>,
    pub email: Option<Vec<String>>,
    pub only_recent: bool,
    pub api_key: String,
}

/// Asks for the parent permissions that pass the filters; with
/// `only_recent`, only for the latest row of each user.
#[derive(Debug)]
pub struct ParentPermissionViewProps {
    pub parent_permission_id: Option<Vec<i64>>,
    pub min_creation_time: Option<i64>,
    pub max_creation_time: Option<i64>,
    pub user_id: Option<Vec<i64>>,
    pub from_challenge: Option<bool>,
    pub parent_email: Option<Vec<String>>,
    pub only_recent: bool,
    pub api_key: String,
}

/// Asks for the passwords that pass the filters; with `only_recent`, only
/// for the latest row of each user.
#[derive(Debug)]
pub struct PasswordViewProps {
    pub password_id: Option<Vec<i64>>,
    pub min_creation_time: Option<i64>,
    pub max_creation_time: Option<i64>,
    pub creator_user_id: Option<Vec<i64>>,
    pub from_reset: Option<bool>,
    pub only_recent: bool,
    pub api_key: String,
}

/// Asks for the verification challenges that pass the filters.
#[derive(Debug)]
pub struct VerificationChallengeViewProps {
    pub min_creation_time: Option<i64>,
    pub max_creation_time: Option<i64>,
    pub creator_user_id: Option<Vec<i64>>,
    pub to_parent: Option<bool>,
    pub email: Option<Vec<String>>,
    pub api_key: String,
}

/// Asks for the API key rows that pass the filters; with `only_recent`, only
/// for the latest row of each key.
#[derive(Debug)]
pub struct ApiKeyViewProps {
    pub api_key_id: Option<Vec<i64>>,
    pub min_creation_time: Option<i64>,
    pub max_creation_time: Option<i64>,
    pub creator_user_id: Option<Vec<i64>>,
    pub min_duration: Option<i64>,
    pub max_duration: Option<i64>,
    pub api_key_kind: Option<ApiKeyKind>,
    pub only_recent: bool,
    pub api_key: String,
}

/// Asks for the user with an identifier.
#[derive(Debug)]
pub struct GetUserByIdProps {
    pub user_id: i64,
}

/// Asks for the owner of an API key.
#[derive(Debug)]
pub struct GetUserByApiKeyIfValid {
    pub api_key: String,
}

} // verus!
