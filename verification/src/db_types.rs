//! The rows of the identity store. Rows are append-only: a row is never
//! changed once it is stored.
use vstd::prelude::*;

verus! {

/// A copy of an optional string.
pub fn clone_opt_string(s: &Option<String>) -> (r: Option<String>)
    ensures
        r == *s,
{
    match s {
        Some(x) => Some(x.clone()),
        None => None,
    }
}

/// Whether an API key row grants access or revokes a key.
#[derive(Clone, Copy, Debug, PartialEq, Eq, Structural)]
pub enum ApiKeyKind {
    Valid,
    Cancel,
}

impl ApiKeyKind {
    /// The number that stands for this kind in storage.
    pub open spec fn code(self) -> u8 {
        match self {
            ApiKeyKind::Valid => 0,
            ApiKeyKind::Cancel => 1,
        }
    }

    /// The number that stands for this kind in storage.
    pub fn to_u8(self) -> (val: u8)
        ensures
            val == self.code(),
    {
        match self {
            ApiKeyKind::Valid => 0,
            ApiKeyKind::Cancel => 1,
        }
    }

    /// The kind that `val` stands for; a number that stands for none is
    /// handed back.
    pub fn try_from(val: u8) -> (r: Result<ApiKeyKind, u8>)
        ensures
            match r {
                Ok(kind) => kind.code() == val,
                Err(x) => x == val && val > 1,
            },
    {
        if val == 0 {
            Ok(ApiKeyKind::Valid)
        } else if val == 1 {
            Ok(ApiKeyKind::Cancel)
        } else {
            Err(val)
        }
    }
}

/// The identity anchor of an account.
#[derive(Debug)]
pub struct User {
    pub user_id: i64,
    pub creation_time: i64,
}

impl Clone for User {
    fn clone(&self) -> (r: Self)
        ensures
            r == *self,
    {
        User { user_id: self.user_id, creation_time: self.creation_time }
    }
}

/// The display name of a user at some time.
#[derive(Debug)]
pub struct UserData {
    pub user_data_id: i64,
    pub creation_time: i64,
    pub creator_user_id: i64,
    pub name: String,
}

impl Clone for UserData {
    fn clone(&self) -> (r: Self)
        ensures
            r == *self,
    {
        UserData {
            user_data_id: self.user_data_id,
            creation_time: self.creation_time,
            creator_user_id: self.creator_user_id,
            name: self.name.clone(),
        }
    }
}

/// A single-use token that proves control of an email address. Only the hash
/// of the token is stored.
#[derive(Debug)]
pub struct VerificationChallenge {
    pub verification_challenge_key_hash: String,
    pub creation_time: i64,
    pub creator_user_id: i64,
    pub to_parent: bool,
    pub email: String,
}

impl Clone for VerificationChallenge {
    fn clone(&self) -> (r: Self)
        ensures
            r == *self,
    {
        VerificationChallenge {
            verification_challenge_key_hash: self.verification_challenge_key_hash.clone(),
            creation_time: self.creation_time,
            creator_user_id: self.creator_user_id,
            to_parent: self.to_parent,
            email: self.email.clone(),
        }
    }
}

/// A confirmed email address, linked to the challenge that confirmed it.
#[derive(Debug)]
pub struct Email {
    pub email_id: i64,
    pub creation_time: i64,
    pub creator_user_id: i64,
    pub verification_challenge_key_hash: String,
}

impl Clone for Email {
    fn clone(&self) -> (r: Self)
        ensures
            r == *self,
    {
        Email {
            email_id: self.email_id,
            creation_time: self.creation_time,
            creator_user_id: self.creator_user_id,
            verification_challenge_key_hash: self.verification_challenge_key_hash.clone(),
        }
    }
}

/// A parent's permission for a user. Without a challenge hash the user
/// declared the permission unneeded at registration.
#[derive(Debug)]
pub struct ParentPermission {
    pub parent_permission_id: i64,
    pub creation_time: i64,
    pub user_id: i64,
    pub verification_challenge_key_hash: Option<String>,
}

impl Clone for ParentPermission {
    fn clone(&self) -> (r: Self)
        ensures
            r == *self,
    {
        ParentPermission {
            parent_permission_id: self.parent_permission_id,
            creation_time: self.creation_time,
            user_id: self.user_id,
            verification_challenge_key_hash: clone_opt_string(
                &self.verification_challenge_key_hash,
            ),
        }
    }
}

/// A single-use token for the password recovery flow. Only the hash of the
/// token is stored.
#[derive(Debug)]
pub struct PasswordReset {
    pub password_reset_key_hash: String,
    pub creation_time: i64,
    pub creator_user_id: i64,
}

impl Clone for PasswordReset {
    fn clone(&self) -> (r: Self)
        ensures
            r == *self,
    {
        PasswordReset {
            password_reset_key_hash: self.password_reset_key_hash.clone(),
            creation_time: self.creation_time,
            creator_user_id: self.creator_user_id,
        }
    }
}

/// A password of a user. With a reset hash it came from the recovery flow.
#[derive(Debug)]
pub struct Password {
    pub password_id: i64,
    pub creation_time: i64,
    pub creator_user_id: i64,
    pub password_hash: String,
    pub password_reset_key_hash: Option<String>,
}

impl Clone for Password {
    fn clone(&self) -> (r: Self)
        ensures
            r == *self,
    {
        Password {
            password_id: self.password_id,
            creation_time: self.creation_time,
            creator_user_id: self.creator_user_id,
            password_hash: self.password_hash.clone(),
            password_reset_key_hash: clone_opt_string(&self.password_reset_key_hash),
        }
    }
}

/// An API key row. A `Cancel` row carries the hash of the key that it revokes.
#[derive(Debug)]
pub struct ApiKey {
    pub api_key_id: i64,
    pub creation_time: i64,
    pub creator_user_id: i64,
    pub api_key_hash: String,
    pub api_key_kind: ApiKeyKind,
    pub duration: i64,
}

impl Clone for ApiKey {
    fn clone(&self) -> (r: Self)
        ensures
            r == *self,
    {
        ApiKey {
            api_key_id: self.api_key_id,
            creation_time: self.creation_time,
            creator_user_id: self.creator_user_id,
            api_key_hash: self.api_key_hash.clone(),
            api_key_kind: self.api_key_kind,
            duration: self.duration,
        }
    }
}

} // verus!
