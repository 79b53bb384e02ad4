//! The workflow operations. Each one loads and checks rows of the identity
//! store, stores the rows that it creates, all of them or none, and answers
//! with a projection of what it created or found.
//!
//! The time of an operation is an argument, `now`, in milliseconds since the
//! Unix epoch. An operation that sends mail appends it to an outbox.
use crate::api_key_service;
use crate::config::Config;
use crate::db_types::{
    ApiKey, ApiKeyKind, Email, ParentPermission, Password, PasswordReset, User, UserData,
    VerificationChallenge,
};
use crate::email_service;
use crate::mail::{
    is_email_verification_mail, is_parent_permission_mail, is_password_reset_mail,
    send_email_verification_email, send_parent_permission_email, send_password_reset_email,
    MailError, MailNewProps,
};
use crate::parent_permission_service;
use crate::password_reset_service;
use crate::password_service;
use crate::request::{
    ApiKeyNewCancelProps, ApiKeyNewValidProps, EmailNewProps, GetUserByApiKeyIfValid,
    GetUserByIdProps, ParentPermissionNewProps, PasswordNewChangeProps, PasswordNewResetProps,
    PasswordResetNewProps, UserDataNewProps, UserNewProps, VerificationChallengeNewProps,
};
use crate::response;
use crate::response::AuthError;
use crate::store::{latest, lemma_latest_push, Store, StoreError, Tables};
use crate::user_data_service;
use crate::user_service;
use crate::utils::{
    argon2_verification, gen_random_string, hash_password, hash_str, hashed, is_password_hash,
    is_secure_password, is_token, secure_password, str_eq, verify_password, PasswordHashError,
};
use crate::verification_challenge_service;
use vstd::prelude::*;
use vstd::utf8::encode_utf8;

verus! {

/// How long a verification challenge or a password reset stays valid, and
/// how long a user waits between two challenges, in milliseconds.
pub const FIFTEEN_MINUTES: i64 = 15 * 60 * 1000;

/// Whether a token created at `creation_time` is past its window at `now`.
/// The last millisecond of the window is still inside.
pub open spec fn timed_out(creation_time: i64, now: i64) -> bool {
    now > creation_time + FIFTEEN_MINUTES
}

/// Whether an API key created at `creation_time` for `duration` milliseconds
/// is expired at `now`.
pub open spec fn expired(creation_time: i64, duration: i64, now: i64) -> bool {
    now > creation_time + duration
}

fn is_timed_out(creation_time: i64, now: i64) -> (r: bool)
    ensures
        r == timed_out(creation_time, now),
{
    now as i128 > creation_time as i128 + FIFTEEN_MINUTES as i128
}

fn is_expired(creation_time: i64, duration: i64, now: i64) -> (r: bool)
    ensures
        r == expired(creation_time, duration, now),
{
    now as i128 > creation_time as i128 + duration as i128
}

/// A failure of the store is answered as an internal error.
pub fn report_store_err(e: StoreError) -> (r: AuthError)
    ensures
        r == AuthError::InternalServerError,
{
    AuthError::InternalServerError
}

/// A failure of the password hashing primitive is answered as unknown.
pub fn report_internal_err(e: PasswordHashError) -> (r: AuthError)
    ensures
        r == AuthError::Unknown,
{
    AuthError::Unknown
}

/// How a failure of the mail service is answered.
pub open spec fn mail_err(e: MailError) -> AuthError {
    match e {
        MailError::DestinationBounced => AuthError::EmailBounced,
        MailError::DestinationProhibited => AuthError::EmailBounced,
        MailError::Other => AuthError::EmailUnknown,
    }
}

/// A mail that bounced or was prohibited is answered as bounced, any other
/// failure of the mail service as unknown.
pub fn report_mail_err(e: MailError) -> (r: AuthError)
    ensures
        r == mail_err(e),
{
    match e {
        MailError::DestinationBounced => AuthError::EmailBounced,
        MailError::DestinationProhibited => AuthError::EmailBounced,
        MailError::Other => AuthError::EmailUnknown,
    }
}

/// What a user row discloses.
pub open spec fn filled_user(user: User) -> response::User {
    response::User { user_id: user.user_id, creation_time: user.creation_time }
}

/// Answers with a user row.
pub fn fill_user(user: User) -> (r: response::User)
    ensures
        r == filled_user(user),
{
    response::User { user_id: user.user_id, creation_time: user.creation_time }
}

/// What a user data row discloses.
pub open spec fn filled_user_data(user_data: UserData) -> response::UserData {
    response::UserData {
        user_data_id: user_data.user_data_id,
        creation_time: user_data.creation_time,
        creator_user_id: user_data.creator_user_id,
        name: user_data.name,
    }
}

/// Answers with a user data row.
pub fn fill_user_data(user_data: UserData) -> (r: response::UserData)
    ensures
        r == filled_user_data(user_data),
{
    response::UserData {
        user_data_id: user_data.user_data_id,
        creation_time: user_data.creation_time,
        creator_user_id: user_data.creator_user_id,
        name: user_data.name,
    }
}

/// What an API key row discloses; `key` is the raw key where the answer may
/// hold it.
pub open spec fn filled_api_key(api_key: ApiKey, key: Option<String>) -> response::ApiKey {
    response::ApiKey {
        api_key_id: api_key.api_key_id,
        creation_time: api_key.creation_time,
        creator_user_id: api_key.creator_user_id,
        api_key_data: match api_key.api_key_kind {
            ApiKeyKind::Valid => response::ApiKeyData::Valid { duration: api_key.duration, key },
            ApiKeyKind::Cancel => response::ApiKeyData::Cancel,
        },
    }
}

/// Answers with an API key row, and with the raw key where `key` holds it.
pub fn fill_api_key(api_key: ApiKey, key: Option<String>) -> (r: response::ApiKey)
    ensures
        r == filled_api_key(api_key, key),
{
    response::ApiKey {
        api_key_id: api_key.api_key_id,
        creation_time: api_key.creation_time,
        creator_user_id: api_key.creator_user_id,
        api_key_data: match api_key.api_key_kind {
            ApiKeyKind::Valid => response::ApiKeyData::Valid { duration: api_key.duration, key },
            ApiKeyKind::Cancel => response::ApiKeyData::Cancel,
        },
    }
}

/// What a challenge discloses: everything but its hash and its creator.
pub open spec fn filled_verification_challenge(
    verification_challenge: VerificationChallenge,
) -> response::VerificationChallenge {
    response::VerificationChallenge {
        creation_time: verification_challenge.creation_time,
        to_parent: verification_challenge.to_parent,
        email: verification_challenge.email,
    }
}

/// Answers with a challenge.
pub fn fill_verification_challenge(verification_challenge: VerificationChallenge) -> (r:
    response::VerificationChallenge)
    ensures
        r == filled_verification_challenge(verification_challenge),
{
    response::VerificationChallenge {
        creation_time: verification_challenge.creation_time,
        to_parent: verification_challenge.to_parent,
        email: verification_challenge.email,
    }
}

/// What a password reset discloses: its time.
pub open spec fn filled_password_reset(password_reset: PasswordReset) -> response::PasswordReset {
    response::PasswordReset { creation_time: password_reset.creation_time }
}

/// Answers with a password reset.
pub fn fill_password_reset(password_reset: PasswordReset) -> (r: response::PasswordReset)
    ensures
        r == filled_password_reset(password_reset),
{
    response::PasswordReset { creation_time: password_reset.creation_time }
}

/// An email row with its challenge, or an error where the challenge is not
/// stored.
pub open spec fn filled_email(s: Tables, email: Email) -> Result<response::Email, AuthError> {
    match email_service::challenge_of(s, email) {
        Some(c) => Ok(
            response::Email {
                email_id: email.email_id,
                creation_time: email.creation_time,
                creator_user_id: email.creator_user_id,
                verification_challenge: filled_verification_challenge(c),
            },
        ),
        None => Err(AuthError::VerificationChallengeNonexistent),
    }
}

/// Answers with an email row and its challenge.
pub fn fill_email(store: &Store, email: Email) -> (r: Result<response::Email, AuthError>)
    ensures
        r == filled_email(store@, email),
{
    match verification_challenge_service::get_by_verification_challenge_key_hash(
        store,
        email.verification_challenge_key_hash.as_str(),
    ) {
        Some(c) => Ok(
            response::Email {
                email_id: email.email_id,
                creation_time: email.creation_time,
                creator_user_id: email.creator_user_id,
                verification_challenge: fill_verification_challenge(c),
            },
        ),
        None => Err(AuthError::VerificationChallengeNonexistent),
    }
}

/// A parent permission with the challenge that authorized it, if one did, or
/// an error where that challenge is not stored.
pub open spec fn filled_parent_permission(s: Tables, parent_permission: ParentPermission) -> Result<
    response::ParentPermission,
    AuthError,
> {
    if parent_permission.verification_challenge_key_hash is Some
        && parent_permission_service::challenge_of(s, parent_permission) is None {
        Err(AuthError::VerificationChallengeNonexistent)
    } else {
        Ok(
            response::ParentPermission {
                parent_permission_id: parent_permission.parent_permission_id,
                creation_time: parent_permission.creation_time,
                user_id: parent_permission.user_id,
                verification_challenge: match parent_permission_service::challenge_of(
                    s,
                    parent_permission,
                ) {
                    Some(c) => Some(filled_verification_challenge(c)),
                    None => None,
                },
            },
        )
    }
}

/// Answers with a parent permission and the challenge that authorized it, if
/// one did.
pub fn fill_parent_permission(store: &Store, parent_permission: ParentPermission) -> (r: Result<
    response::ParentPermission,
    AuthError,
>)
    ensures
        r == filled_parent_permission(store@, parent_permission),
{
    let verification_challenge = match &parent_permission.verification_challenge_key_hash {
        Some(h) => {
            match verification_challenge_service::get_by_verification_challenge_key_hash(
                store,
                h.as_str(),
            ) {
                Some(c) => Some(fill_verification_challenge(c)),
                None => {
                    return Err(AuthError::VerificationChallengeNonexistent);
                },
            }
        },
        None => None,
    };
    Ok(
        response::ParentPermission {
            parent_permission_id: parent_permission.parent_permission_id,
            creation_time: parent_permission.creation_time,
            user_id: parent_permission.user_id,
            verification_challenge,
        },
    )
}

/// The password reset that produced the password `password`, if one did.
pub open spec fn reset_of(s: Tables, password: Password) -> Option<PasswordReset> {
    match password.password_reset_key_hash {
        Some(h) => latest(s.password_resets, password_reset_service::with_hash(h@)),
        None => None,
    }
}

/// A password with the password reset that produced it, if one did, or an
/// error where that password reset is not stored. The hash is not disclosed.
pub open spec fn filled_password(s: Tables, password: Password) -> Result<
    response::Password,
    AuthError,
> {
    if password.password_reset_key_hash is Some && reset_of(s, password) is None {
        Err(AuthError::PasswordResetNonexistent)
    } else {
        Ok(
            response::Password {
                password_id: password.password_id,
                creation_time: password.creation_time,
                creator_user_id: password.creator_user_id,
                password_reset: match reset_of(s, password) {
                    Some(p) => Some(filled_password_reset(p)),
                    None => None,
                },
            },
        )
    }
}

/// Answers with a password and the password reset that produced it, if one
/// did.
pub fn fill_password(store: &Store, password: Password) -> (r: Result<response::Password, AuthError>)
    ensures
        r == filled_password(store@, password),
{
    let password_reset = match &password.password_reset_key_hash {
        Some(h) => {
            match password_reset_service::get_by_password_reset_key_hash(store, h.as_str()) {
                Some(p) => Some(fill_password_reset(p)),
                None => {
                    return Err(AuthError::PasswordResetNonexistent);
                },
            }
        },
        None => None,
    };
    Ok(
        response::Password {
            password_id: password.password_id,
            creation_time: password.creation_time,
            creator_user_id: password.creator_user_id,
            password_reset,
        },
    )
}

/// The API key row that stands for the key with the hash `hash` at `now`: the
/// row stored last under the hash, which must be a valid one and not expired.
pub open spec fn valid_api_key(s: Tables, now: i64, hash: Seq<char>) -> Result<ApiKey, AuthError> {
    match latest(s.api_keys, api_key_service::with_hash(hash)) {
        None => Err(AuthError::ApiKeyNonexistent),
        Some(k) => if k.api_key_kind != ApiKeyKind::Valid || expired(
            k.creation_time,
            k.duration,
            now,
        ) {
            Err(AuthError::ApiKeyUnauthorized)
        } else {
            Ok(k)
        },
    }
}

/// As [`valid_api_key`], and the owner of the key must have a parent
/// permission.
pub open spec fn verified_api_key(s: Tables, now: i64, hash: Seq<char>) -> Result<
    ApiKey,
    AuthError,
> {
    match valid_api_key(s, now, hash) {
        Err(e) => Err(e),
        Ok(k) => if latest(s.parent_permissions, parent_permission_service::of_user(
            k.creator_user_id,
        )) is None {
            Err(AuthError::ParentPermissionNonexistent)
        } else {
            Ok(k)
        },
    }
}

/// Resolves the hash of an API key to its row, if the key is valid at `now`.
pub fn resolve_valid_noverify(store: &Store, now: i64, api_key_hash: &str) -> (r: Result<
    ApiKey,
    AuthError,
>)
    ensures
        r == valid_api_key(store@, now, api_key_hash@),
{
    match api_key_service::get_by_api_key_hash(store, api_key_hash) {
        None => Err(AuthError::ApiKeyNonexistent),
        Some(k) => {
            let valid = match k.api_key_kind {
                ApiKeyKind::Valid => true,
                ApiKeyKind::Cancel => false,
            };
            if !valid || is_expired(k.creation_time, k.duration, now) {
                Err(AuthError::ApiKeyUnauthorized)
            } else {
                Ok(k)
            }
        },
    }
}

/// Resolves the hash of an API key to its row, if the key is valid at `now`
/// and its owner has a parent permission.
pub fn resolve_verified(store: &Store, now: i64, api_key_hash: &str) -> (r: Result<
    ApiKey,
    AuthError,
>)
    ensures
        r == verified_api_key(store@, now, api_key_hash@),
{
    match resolve_valid_noverify(store, now, api_key_hash) {
        Err(e) => Err(e),
        Ok(k) => {
            if parent_permission_service::get_by_user_id(store, k.creator_user_id).is_none() {
                Err(AuthError::ParentPermissionNonexistent)
            } else {
                Ok(k)
            }
        },
    }
}

/// Resolves a raw API key to its row, if the key is valid at `now`.
pub fn get_api_key_if_valid_noverify(store: &Store, now: i64, api_key: &str) -> (r: Result<
    ApiKey,
    AuthError,
>)
    ensures
        r == valid_api_key(store@, now, hashed(api_key@)),
{
    let hash = hash_str(api_key);
    resolve_valid_noverify(store, now, hash.as_str())
}

/// Resolves a raw API key to its row, if the key is valid at `now` and its
/// owner has a parent permission.
pub fn get_api_key_if_verified(store: &Store, now: i64, api_key: &str) -> (r: Result<
    ApiKey,
    AuthError,
>)
    ensures
        r == verified_api_key(store@, now, hashed(api_key@)),
{
    let hash = hash_str(api_key);
    resolve_verified(store, now, hash.as_str())
}

/// The challenge stored under `hash`, if it is not past its window at `now`.
pub open spec fn resolved_challenge(s: Tables, now: i64, hash: Seq<char>) -> Result<
    VerificationChallenge,
    AuthError,
> {
    match latest(s.verification_challenges, verification_challenge_service::with_hash(hash)) {
        None => Err(AuthError::VerificationChallengeNonexistent),
        Some(c) => if timed_out(c.creation_time, now) {
            Err(AuthError::VerificationChallengeTimedOut)
        } else {
            Ok(c)
        },
    }
}

/// Resolves the hash of a challenge token to its challenge.
pub fn resolve(store: &Store, now: i64, verification_challenge_key_hash: &str) -> (r: Result<
    VerificationChallenge,
    AuthError,
>)
    ensures
        r == resolved_challenge(store@, now, verification_challenge_key_hash@),
{
    match verification_challenge_service::get_by_verification_challenge_key_hash(
        store,
        verification_challenge_key_hash,
    ) {
        None => Err(AuthError::VerificationChallengeNonexistent),
        Some(c) => if is_timed_out(c.creation_time, now) {
            Err(AuthError::VerificationChallengeTimedOut)
        } else {
            Ok(c)
        },
    }
}

/// The email row that consuming the challenge under `hash` for an email
/// confirmation stores at `now`, or why it is refused. The checks come in
/// this order: the challenge exists, is inside its window, is meant for the
/// user's own address, has confirmed no email yet, and its address is the
/// current address of no user.
pub open spec fn email_consumption(s: Tables, now: i64, hash: String) -> Result<Email, AuthError> {
    match resolved_challenge(s, now, hash@) {
        Err(e) => Err(e),
        Ok(c) => if c.to_parent {
            Err(AuthError::VerificationChallengeWrongKind)
        } else if latest(s.emails, email_service::with_hash(hash@)) is Some {
            Err(AuthError::VerificationChallengeUsed)
        } else if latest(s.emails, email_service::current_for_address(s, c.email@)) is Some {
            Err(AuthError::EmailExistent)
        } else if s.emails.len() >= i64::MAX {
            Err(AuthError::InternalServerError)
        } else {
            Ok(
                Email {
                    email_id: (s.emails.len() + 1) as i64,
                    creation_time: now,
                    creator_user_id: c.creator_user_id,
                    verification_challenge_key_hash: hash,
                },
            )
        },
    }
}

/// The tables after an operation that stores the email row of `r`, if any.
pub open spec fn with_email(s: Tables, r: Result<Email, AuthError>) -> Tables {
    match r {
        Ok(row) => Tables { emails: s.emails.push(row), ..s },
        Err(_) => s,
    }
}

/// Consumes the challenge under `verification_challenge_key_hash` to confirm
/// the email address that it was sent to.
pub fn consume_for_email(store: &mut Store, now: i64, verification_challenge_key_hash: String) -> (r:
    Result<Email, AuthError>)
    requires
        old(store).wf(),
    ensures
        final(store).wf(),
        r == email_consumption(old(store)@, now, verification_challenge_key_hash),
        final(store)@ == with_email(old(store)@, r),
{
    let c = match resolve(store, now, verification_challenge_key_hash.as_str()) {
        Ok(c) => c,
        Err(e) => {
            return Err(e);
        },
    };
    if c.to_parent {
        return Err(AuthError::VerificationChallengeWrongKind);
    }
    if email_service::get_by_verification_challenge_key_hash(
        store,
        verification_challenge_key_hash.as_str(),
    ).is_some() {
        return Err(AuthError::VerificationChallengeUsed);
    }
    if email_service::get_by_email(store, c.email.as_str()).is_some() {
        return Err(AuthError::EmailExistent);
    }
    match email_service::add(store, now, c.creator_user_id, verification_challenge_key_hash) {
        Ok(row) => Ok(row),
        Err(e) => Err(report_store_err(e)),
    }
}

/// Confirms an email address with the token of a verification challenge.
pub fn email_new(store: &mut Store, now: i64, props: EmailNewProps) -> (r: Result<
    response::Email,
    AuthError,
>)
    requires
        old(store).wf(),
    ensures
        final(store).wf(),
        exists|hash: String|
            {
                &&& hash@ == hashed(props.verification_challenge_key@)
                &&& final(store)@ == with_email(
                    old(store)@,
                    #[trigger] email_consumption(old(store)@, now, hash),
                )
                &&& r == match email_consumption(old(store)@, now, hash) {
                    Ok(row) => filled_email(final(store)@, row),
                    Err(e) => Err(e),
                }
            },
{
    let hash = hash_str(props.verification_challenge_key.as_str());
    let ghost witness = hash;
    match consume_for_email(store, now, hash) {
        Ok(row) => {
            let r = fill_email(store, row);
            assert(email_consumption(old(store)@, now, witness) == Ok::<Email, AuthError>(row));
            r
        },
        Err(e) => {
            assert(email_consumption(old(store)@, now, witness) == Err::<Email, AuthError>(e));
            Err(e)
        },
    }
}

/// The parent permission that consuming the challenge under `hash` for a
/// parent's permission stores at `now`, or why it is refused. The checks
/// come in this order: the challenge exists, is inside its window, is meant
/// for a parent, and has authorized no parent permission yet.
pub open spec fn parent_consumption(s: Tables, now: i64, hash: String) -> Result<
    ParentPermission,
    AuthError,
> {
    match resolved_challenge(s, now, hash@) {
        Err(e) => Err(e),
        Ok(c) => if !c.to_parent {
            Err(AuthError::VerificationChallengeWrongKind)
        } else if latest(s.parent_permissions, parent_permission_service::with_hash(hash@))
            is Some {
            Err(AuthError::VerificationChallengeUsed)
        } else if s.parent_permissions.len() >= i64::MAX {
            Err(AuthError::InternalServerError)
        } else {
            Ok(
                ParentPermission {
                    parent_permission_id: (s.parent_permissions.len() + 1) as i64,
                    creation_time: now,
                    user_id: c.creator_user_id,
                    verification_challenge_key_hash: Some(hash),
                },
            )
        },
    }
}

/// The tables after an operation that stores the parent permission of `r`,
/// if any.
pub open spec fn with_parent_permission(s: Tables, r: Result<ParentPermission, AuthError>) -> Tables {
    match r {
        Ok(row) => Tables { parent_permissions: s.parent_permissions.push(row), ..s },
        Err(_) => s,
    }
}

/// Consumes the challenge under `verification_challenge_key_hash` to record
/// a parent's permission.
pub fn consume_for_parent_permission(
    store: &mut Store,
    now: i64,
    verification_challenge_key_hash: String,
) -> (r: Result<ParentPermission, AuthError>)
    requires
        old(store).wf(),
    ensures
        final(store).wf(),
        r == parent_consumption(old(store)@, now, verification_challenge_key_hash),
        final(store)@ == with_parent_permission(old(store)@, r),
{
    let c = match resolve(store, now, verification_challenge_key_hash.as_str()) {
        Ok(c) => c,
        Err(e) => {
            return Err(e);
        },
    };
    if !c.to_parent {
        return Err(AuthError::VerificationChallengeWrongKind);
    }
    if parent_permission_service::get_by_verification_challenge_key_hash(
        store,
        verification_challenge_key_hash.as_str(),
    ).is_some() {
        return Err(AuthError::VerificationChallengeUsed);
    }
    match parent_permission_service::add(
        store,
        now,
        c.creator_user_id,
        Some(verification_challenge_key_hash),
    ) {
        Ok(row) => Ok(row),
        Err(e) => Err(report_store_err(e)),
    }
}

/// Records a parent's permission with the token of a verification challenge.
pub fn parent_permission_new(store: &mut Store, now: i64, props: ParentPermissionNewProps) -> (r:
    Result<response::ParentPermission, AuthError>)
    requires
        old(store).wf(),
    ensures
        final(store).wf(),
        exists|hash: String|
            {
                &&& hash@ == hashed(props.verification_challenge_key@)
                &&& final(store)@ == with_parent_permission(
                    old(store)@,
                    #[trigger] parent_consumption(old(store)@, now, hash),
                )
                &&& r == match parent_consumption(old(store)@, now, hash) {
                    Ok(row) => filled_parent_permission(final(store)@, row),
                    Err(e) => Err(e),
                }
            },
{
    let hash = hash_str(props.verification_challenge_key.as_str());
    let ghost witness = hash;
    match consume_for_parent_permission(store, now, hash) {
        Ok(row) => {
            let r = fill_parent_permission(store, row);
            assert(parent_consumption(old(store)@, now, witness) == Ok::<
                ParentPermission,
                AuthError,
            >(row));
            r
        },
        Err(e) => {
            assert(parent_consumption(old(store)@, now, witness) == Err::<
                ParentPermission,
                AuthError,
            >(e));
            Err(e)
        },
    }
}

/// The tables after an operation that stores the API key row of `r`, if any.
pub open spec fn with_api_key(s: Tables, r: Result<ApiKey, AuthError>) -> Tables {
    match r {
        Ok(row) => Tables { api_keys: s.api_keys.push(row), ..s },
        Err(_) => s,
    }
}

/// The row that cancels the key under `target` on behalf of the key under
/// `caller`, or why the cancellation is refused. Both keys must be valid,
/// their owners must have a parent permission, and the owners must be the
/// same user.
pub open spec fn cancellation(s: Tables, now: i64, caller: Seq<char>, target: Seq<char>) -> Result<
    ApiKey,
    AuthError,
> {
    match verified_api_key(s, now, caller) {
        Err(e) => Err(e),
        Ok(creator_key) => match verified_api_key(s, now, target) {
            Err(e) => Err(e),
            Ok(to_cancel_key) => if creator_key.creator_user_id != to_cancel_key.creator_user_id {
                Err(AuthError::ApiKeyUnauthorized)
            } else if s.api_keys.len() >= i64::MAX {
                Err(AuthError::InternalServerError)
            } else {
                Ok(
                    ApiKey {
                        api_key_id: (s.api_keys.len() + 1) as i64,
                        creation_time: now,
                        creator_user_id: creator_key.creator_user_id,
                        api_key_hash: to_cancel_key.api_key_hash,
                        api_key_kind: ApiKeyKind::Cancel,
                        duration: 0,
                    },
                )
            },
        },
    }
}

/// Cancels the key under the hash `target` on behalf of the key under the
/// hash `caller`: stores a cancel row under the hash of the target.
pub fn cancel(store: &mut Store, now: i64, caller: &str, target: &str) -> (r: Result<
    ApiKey,
    AuthError,
>)
    requires
        old(store).wf(),
    ensures
        final(store).wf(),
        r == cancellation(old(store)@, now, caller@, target@),
        final(store)@ == with_api_key(old(store)@, r),
{
    let creator_key = match resolve_verified(store, now, caller) {
        Ok(k) => k,
        Err(e) => {
            return Err(e);
        },
    };
    let to_cancel_key = match resolve_verified(store, now, target) {
        Ok(k) => k,
        Err(e) => {
            return Err(e);
        },
    };
    if creator_key.creator_user_id != to_cancel_key.creator_user_id {
        return Err(AuthError::ApiKeyUnauthorized);
    }
    match api_key_service::add(
        store,
        now,
        creator_key.creator_user_id,
        to_cancel_key.api_key_hash,
        ApiKeyKind::Cancel,
        0,
    ) {
        Ok(row) => Ok(row),
        Err(e) => Err(report_store_err(e)),
    }
}

/// Cancels an API key with another key of the same user.
pub fn api_key_new_cancel(store: &mut Store, now: i64, props: ApiKeyNewCancelProps) -> (r: Result<
    response::ApiKey,
    AuthError,
>)
    requires
        old(store).wf(),
    ensures
        final(store).wf(),
        final(store)@ == with_api_key(
            old(store)@,
            cancellation(
                old(store)@,
                now,
                hashed(props.api_key@),
                hashed(props.api_key_to_cancel@),
            ),
        ),
        r == match cancellation(
            old(store)@,
            now,
            hashed(props.api_key@),
            hashed(props.api_key_to_cancel@),
        ) {
            Ok(row) => Ok(filled_api_key(row, None)),
            Err(e) => Err(e),
        },
{
    let caller = hash_str(props.api_key.as_str());
    let target = hash_str(props.api_key_to_cancel.as_str());
    match cancel(store, now, caller.as_str(), target.as_str()) {
        Ok(row) => Ok(fill_api_key(row, None)),
        Err(e) => Err(e),
    }
}

/// The current email row of the address `user_email` and the current
/// password of its user.
pub open spec fn credentials(s: Tables, user_email: Seq<char>) -> Result<
    (Email, Password),
    AuthError,
> {
    match latest(s.emails, email_service::current_for_address(s, user_email)) {
        None => Err(AuthError::EmailNonexistent),
        Some(e) => match latest(s.passwords, password_service::of_user(e.creator_user_id)) {
            None => Err(AuthError::PasswordNonexistent),
            Some(p) => Ok((e, p)),
        },
    }
}

/// Finds the current email row of an address and the current password of
/// its user.
pub fn find_credentials(store: &Store, user_email: &str) -> (r: Result<(Email, Password), AuthError>)
    requires
        store.wf(),
    ensures
        r == credentials(store@, user_email@),
{
    match email_service::get_by_email(store, user_email) {
        None => Err(AuthError::EmailNonexistent),
        Some(e) => match password_service::get_by_user_id(store, e.creator_user_id) {
            None => Err(AuthError::PasswordNonexistent),
            Some(p) => Ok((e, p)),
        },
    }
}

/// The row of a new valid key of the user `user_id`, stored under the hash
/// `hash` of the raw key, or why it is refused.
pub open spec fn valid_issuance(s: Tables, now: i64, user_id: i64, hash: String, duration: i64) -> Result<
    ApiKey,
    AuthError,
> {
    if s.api_keys.len() >= i64::MAX {
        Err(AuthError::InternalServerError)
    } else {
        Ok(
            ApiKey {
                api_key_id: (s.api_keys.len() + 1) as i64,
                creation_time: now,
                creator_user_id: user_id,
                api_key_hash: hash,
                api_key_kind: ApiKeyKind::Valid,
                duration,
            },
        )
    }
}

/// Whether `s2` and `r` are the tables and the answer after a valid key with
/// the raw key `raw_key` was issued on the tables `s`.
pub open spec fn issued(
    s: Tables,
    s2: Tables,
    r: Result<response::ApiKey, AuthError>,
    now: i64,
    user_id: i64,
    raw_key: String,
    duration: i64,
) -> bool {
    exists|hash: String|
        {
            &&& hash@ == hashed(raw_key@)
            &&& s2 == with_api_key(s, #[trigger] valid_issuance(s, now, user_id, hash, duration))
            &&& r == match valid_issuance(s, now, user_id, hash, duration) {
                Ok(row) => Ok(filled_api_key(row, Some(raw_key))),
                Err(e) => Err(e),
            }
        }
}

/// Stores a valid API key row for the user `user_id` under the hash of
/// `raw_key`, and answers with the row and the raw key.
pub fn issue_valid(store: &mut Store, now: i64, user_id: i64, raw_key: String, duration: i64) -> (r:
    Result<response::ApiKey, AuthError>)
    requires
        old(store).wf(),
    ensures
        final(store).wf(),
        issued(old(store)@, final(store)@, r, now, user_id, raw_key, duration),
{
    let hash = hash_str(raw_key.as_str());
    let ghost witness = hash;
    match api_key_service::add(store, now, user_id, hash, ApiKeyKind::Valid, duration) {
        Ok(row) => {
            assert(valid_issuance(old(store)@, now, user_id, witness, duration) == Ok::<
                ApiKey,
                AuthError,
            >(row));
            Ok(fill_api_key(row, Some(raw_key)))
        },
        Err(e) => {
            assert(valid_issuance(old(store)@, now, user_id, witness, duration) == Err::<
                ApiKey,
                AuthError,
            >(AuthError::InternalServerError));
            Err(report_store_err(e))
        },
    }
}

/// Why a login with the address `user_email` and the password `user_password`
/// is refused, if it is.
pub open spec fn login_refusal(s: Tables, user_email: Seq<char>, user_password: Seq<char>) -> Option<
    AuthError,
> {
    match credentials(s, user_email) {
        Err(e) => Some(e),
        Ok((_, password)) => match argon2_verification(
            password.password_hash@,
            encode_utf8(user_password),
        ) {
            None => Some(AuthError::Unknown),
            Some(false) => Some(AuthError::PasswordIncorrect),
            Some(true) => None,
        },
    }
}

/// Issues a valid API key to the user who logs in with a confirmed email
/// address and the current password. The raw key is part of the answer and
/// of no later one.
pub fn api_key_new_valid(store: &mut Store, now: i64, props: ApiKeyNewValidProps) -> (r: Result<
    response::ApiKey,
    AuthError,
>)
    requires
        old(store).wf(),
    ensures
        final(store).wf(),
        match login_refusal(old(store)@, props.user_email@, props.user_password@) {
            Some(e) => r == Err::<response::ApiKey, AuthError>(e) && final(store)@ == old(store)@,
            None => exists|raw_key: String|
                is_token(raw_key@) && #[trigger] issued(
                    old(store)@,
                    final(store)@,
                    r,
                    now,
                    credentials(old(store)@, props.user_email@).unwrap().0.creator_user_id,
                    raw_key,
                    props.duration,
                ),
        },
{
    let (email, password) = match find_credentials(store, props.user_email.as_str()) {
        Ok(found) => found,
        Err(e) => {
            return Err(e);
        },
    };
    match verify_password(props.user_password.as_str(), password.password_hash.as_str()) {
        Err(e) => {
            return Err(report_internal_err(e));
        },
        Ok(matches) => {
            if !matches {
                return Err(AuthError::PasswordIncorrect);
            }
        },
    }
    let raw_api_key = gen_random_string();
    issue_valid(store, now, email.creator_user_id, raw_api_key, props.duration)
}

/// A secret drawn for an operation: the raw key, which leaves in a mail or
/// in the answer, and its hash, which is stored.
pub struct Token {
    pub key: String,
    pub hash: String,
}

/// Whether `t` holds the text of 32 random bytes and its hash.
pub open spec fn is_fresh(t: Token) -> bool {
    is_token(t.key@) && t.hash@ == hashed(t.key@)
}

fn is_full(n: usize) -> (r: bool)
    ensures
        r == (n >= i64::MAX),
{
    n as u64 >= i64::MAX as u64
}

/// Whether the store cannot take the rows of a registration: a table has no
/// identifier left, or a challenge is stored already under one of the
/// hashes, or the two hashes are the same. `parent` holds the address of the
/// parent and the hash of the parent's challenge.
pub open spec fn registration_blocked(
    s: Tables,
    email_hash: Seq<char>,
    parent: Option<(String, String)>,
) -> bool {
    ||| s.users.len() >= i64::MAX
    ||| s.user_data.len() >= i64::MAX
    ||| s.passwords.len() >= i64::MAX
    ||| latest(s.verification_challenges, verification_challenge_service::with_hash(email_hash))
        is Some
    ||| match parent {
        Some((_, parent_hash)) => parent_hash@ == email_hash || latest(
            s.verification_challenges,
            verification_challenge_service::with_hash(parent_hash@),
        ) is Some,
        None => s.parent_permissions.len() >= i64::MAX,
    }
}

/// The user data row that a registration stores.
pub open spec fn registered_user_data(s: Tables, now: i64, user_name: String) -> UserData {
    UserData {
        user_data_id: (s.user_data.len() + 1) as i64,
        creation_time: now,
        creator_user_id: (s.users.len() + 1) as i64,
        name: user_name,
    }
}

/// The tables after a registration: a user, the user's name and password, a
/// challenge for the user's address, and either a challenge for the parent's
/// address or, where no parent was named, a parent permission that the user
/// declared for themselves.
pub open spec fn registered(
    s: Tables,
    now: i64,
    user_name: String,
    password_hash: String,
    user_email: String,
    email_hash: String,
    parent: Option<(String, String)>,
) -> Tables {
    let user_id = (s.users.len() + 1) as i64;
    let own = VerificationChallenge {
        verification_challenge_key_hash: email_hash,
        creation_time: now,
        creator_user_id: user_id,
        to_parent: false,
        email: user_email,
    };
    Tables {
        users: s.users.push(User { user_id, creation_time: now }),
        user_data: s.user_data.push(registered_user_data(s, now, user_name)),
        passwords: s.passwords.push(
            Password {
                password_id: (s.passwords.len() + 1) as i64,
                creation_time: now,
                creator_user_id: user_id,
                password_hash,
                password_reset_key_hash: None,
            },
        ),
        verification_challenges: match parent {
            Some((parent_email, parent_hash)) => s.verification_challenges.push(own).push(
                VerificationChallenge {
                    verification_challenge_key_hash: parent_hash,
                    creation_time: now,
                    creator_user_id: user_id,
                    to_parent: true,
                    email: parent_email,
                },
            ),
            None => s.verification_challenges.push(own),
        },
        parent_permissions: match parent {
            Some(_) => s.parent_permissions,
            None => s.parent_permissions.push(
                ParentPermission {
                    parent_permission_id: (s.parent_permissions.len() + 1) as i64,
                    creation_time: now,
                    user_id,
                    verification_challenge_key_hash: None,
                },
            ),
        },
        ..s
    }
}

/// Stores the rows of a registration, all of them or none.
pub fn register(
    store: &mut Store,
    now: i64,
    user_name: String,
    password_hash: String,
    user_email: String,
    email_hash: String,
    parent: Option<(String, String)>,
) -> (r: Result<UserData, AuthError>)
    requires
        old(store).wf(),
    ensures
        final(store).wf(),
        if registration_blocked(old(store)@, email_hash@, parent) {
            r == Err::<UserData, AuthError>(AuthError::InternalServerError) && final(store)@ == old(
                store,
            )@
        } else {
            r == Ok::<UserData, AuthError>(registered_user_data(old(store)@, now, user_name))
                && final(store)@ == registered(
                old(store)@,
                now,
                user_name,
                password_hash,
                user_email,
                email_hash,
                parent,
            )
        },
{
    if is_full(store.users().len()) || is_full(store.user_data().len()) || is_full(
        store.passwords().len(),
    ) {
        return Err(AuthError::InternalServerError);
    }
    if verification_challenge_service::get_by_verification_challenge_key_hash(
        store,
        email_hash.as_str(),
    ).is_some() {
        return Err(AuthError::InternalServerError);
    }
    let parent_blocked = match &parent {
        Some((_, parent_hash)) => str_eq(parent_hash.as_str(), email_hash.as_str())
            || verification_challenge_service::get_by_verification_challenge_key_hash(
            store,
            parent_hash.as_str(),
        ).is_some(),
        None => is_full(store.parent_permissions().len()),
    };
    if parent_blocked {
        return Err(AuthError::InternalServerError);
    }
    let user = match user_service::add(store, now) {
        Ok(row) => row,
        Err(e) => {
            return Err(report_store_err(e));
        },
    };
    let user_data = match user_data_service::add(store, now, user.user_id, user_name) {
        Ok(row) => row,
        Err(e) => {
            return Err(report_store_err(e));
        },
    };
    match password_service::add(store, now, user.user_id, password_hash, None) {
        Ok(_) => {},
        Err(e) => {
            return Err(report_store_err(e));
        },
    }
    let ghost own = VerificationChallenge {
        verification_challenge_key_hash: email_hash,
        creation_time: now,
        creator_user_id: user.user_id,
        to_parent: false,
        email: user_email,
    };
    match verification_challenge_service::add(
        store,
        now,
        email_hash,
        user_email,
        user.user_id,
        false,
    ) {
        Ok(_) => {},
        Err(e) => {
            return Err(report_store_err(e));
        },
    }
    match parent {
        Some((parent_email, parent_hash)) => {
            proof {
                lemma_latest_push(
                    old(store)@.verification_challenges,
                    verification_challenge_service::with_hash(parent_hash@),
                    own,
                );
            }
            match verification_challenge_service::add(
                store,
                now,
                parent_hash,
                parent_email,
                user.user_id,
                true,
            ) {
                Ok(_) => {},
                Err(e) => {
                    return Err(report_store_err(e));
                },
            }
        },
        None => {
            match parent_permission_service::add(store, now, user.user_id, None) {
                Ok(_) => {},
                Err(e) => {
                    return Err(report_store_err(e));
                },
            }
        },
    }
    Ok(user_data)
}

/// The secrets that a registration draws: the hash of the password and the
/// tokens of the two challenges. The parent's token counts only where a
/// parent was named.
pub struct Secrets {
    pub password_hash: String,
    pub email: Token,
    pub parent: Token,
}

/// The parent's address and the hash of the parent's challenge, where a
/// parent was named.
pub open spec fn parent_of(props: UserNewProps, w: Secrets) -> Option<(String, String)> {
    match props.parent_email {
        Some(parent_email) => Some((parent_email, w.parent.hash)),
        None => None,
    }
}

/// Whether the outbox `after` holds what `before` held and then the mails
/// of a registration: one to the user's address and, where a parent was
/// named, one to the parent's.
pub open spec fn registration_mails(
    before: Seq<MailNewProps>,
    after: Seq<MailNewProps>,
    config: Config,
    props: UserNewProps,
    w: Secrets,
) -> bool {
    let n = before.len() as int;
    &&& after.take(n) == before
    &&& after.len() > n
    &&& is_email_verification_mail(
        after[n],
        props.user_email@,
        props.user_name@,
        config.site_external_url@,
        w.email.key@,
    )
    &&& match props.parent_email {
        Some(parent_email) => after.len() == n + 2 && is_parent_permission_mail(
            after[n + 1],
            parent_email@,
            props.user_name@,
            config.site_external_url@,
            w.parent.key@,
        ),
        None => after.len() == n + 1,
    }
}

/// Whether `s2`, `after` and `r` are the tables, the outbox and the answer
/// after a registration on the tables `s` that drew the secrets `w`.
pub open spec fn user_registration(
    s: Tables,
    s2: Tables,
    before: Seq<MailNewProps>,
    after: Seq<MailNewProps>,
    r: Result<response::UserData, AuthError>,
    config: Config,
    now: i64,
    props: UserNewProps,
    w: Secrets,
) -> bool {
    &&& is_password_hash(w.password_hash@, props.user_password@)
    &&& is_fresh(w.email)
    &&& props.parent_email is Some ==> is_fresh(w.parent)
    &&& if registration_blocked(s, w.email.hash@, parent_of(props, w)) {
        r == Err::<response::UserData, AuthError>(AuthError::InternalServerError) && s2 == s
            && after == before
    } else {
        &&& r == Ok::<response::UserData, AuthError>(
            filled_user_data(registered_user_data(s, now, props.user_name)),
        )
        &&& s2 == registered(
            s,
            now,
            props.user_name,
            w.password_hash,
            props.user_email,
            w.email.hash,
            parent_of(props, w),
        )
        &&& registration_mails(before, after, config, props, w)
    }
}

/// Registers a user. The name must not be empty and the password must meet
/// the password policy. A challenge goes out to the user's address; where a
/// parent's address is given, a challenge goes out to it too, and otherwise
/// the user counts as permitted at once.
pub fn user_new(
    config: &Config,
    store: &mut Store,
    outbox: &mut Vec<MailNewProps>,
    now: i64,
    props: UserNewProps,
) -> (r: Result<response::UserData, AuthError>)
    requires
        old(store).wf(),
    ensures
        final(store).wf(),
        r is Err ==> final(store)@ == old(store)@ && final(outbox)@ == old(outbox)@,
        if props.user_name@.len() == 0 {
            r == Err::<response::UserData, AuthError>(AuthError::UserNameEmpty)
        } else if !secure_password(props.user_password@) {
            r == Err::<response::UserData, AuthError>(AuthError::PasswordInsecure)
        } else {
            ||| r == Err::<response::UserData, AuthError>(AuthError::Unknown) && encode_utf8(
                props.user_password@,
            ).len() > u32::MAX
            ||| exists|w: Secrets| #[trigger]
                user_registration(
                    old(store)@,
                    final(store)@,
                    old(outbox)@,
                    final(outbox)@,
                    r,
                    *config,
                    now,
                    props,
                    w,
                )
        },
{
    let UserNewProps { user_name, user_email, user_password, parent_email } = props;
    if user_name.as_str().is_empty() {
        return Err(AuthError::UserNameEmpty);
    }
    if !is_secure_password(user_password.as_str()) {
        return Err(AuthError::PasswordInsecure);
    }
    let password_hash = match hash_password(user_password.as_str()) {
        Ok(hash) => hash,
        Err(e) => {
            return Err(report_internal_err(e));
        },
    };
    let email_key = gen_random_string();
    let email_hash = hash_str(email_key.as_str());
    let name = user_name.clone();
    let address = user_email.clone();
    let ghost own = Token { key: email_key, hash: email_hash };
    match parent_email {
        None => {
            let ghost w = Secrets { password_hash, email: own, parent: own };
            match register(store, now, user_name, password_hash, user_email, email_hash, None) {
                Err(e) => {
                    assert(user_registration(
                        old(store)@,
                        store@,
                        old(outbox)@,
                        outbox@,
                        Err(e),
                        *config,
                        now,
                        props,
                        w,
                    ));
                    Err(e)
                },
                Ok(user_data) => {
                    send_email_verification_email(
                        outbox,
                        address.as_str(),
                        name.as_str(),
                        config.site_external_url.as_str(),
                        email_key.as_str(),
                    );
                    let r = Ok(fill_user_data(user_data));
                    proof {
                        let n = old(outbox)@.len() as int;
                        assert(outbox@.take(n) == outbox@.drop_last());
                        assert(user_registration(
                            old(store)@,
                            store@,
                            old(outbox)@,
                            outbox@,
                            r,
                            *config,
                            now,
                            props,
                            w,
                        ));
                    }
                    r
                },
            }
        },
        Some(parent_address) => {
            let parent_key = gen_random_string();
            let parent_hash = hash_str(parent_key.as_str());
            let parent_copy = parent_address.clone();
            let ghost w = Secrets {
                password_hash,
                email: own,
                parent: Token { key: parent_key, hash: parent_hash },
            };
            match register(
                store,
                now,
                user_name,
                password_hash,
                user_email,
                email_hash,
                Some((parent_address, parent_hash)),
            ) {
                Err(e) => {
                    assert(user_registration(
                        old(store)@,
                        store@,
                        old(outbox)@,
                        outbox@,
                        Err(e),
                        *config,
                        now,
                        props,
                        w,
                    ));
                    Err(e)
                },
                Ok(user_data) => {
                    send_email_verification_email(
                        outbox,
                        address.as_str(),
                        name.as_str(),
                        config.site_external_url.as_str(),
                        email_key.as_str(),
                    );
                    let ghost first = outbox@;
                    send_parent_permission_email(
                        outbox,
                        parent_copy.as_str(),
                        name.as_str(),
                        config.site_external_url.as_str(),
                        parent_key.as_str(),
                    );
                    let r = Ok(fill_user_data(user_data));
                    proof {
                        let n = old(outbox)@.len() as int;
                        assert(outbox@.drop_last() == first);
                        assert(first.drop_last() == old(outbox)@);
                        assert(outbox@.take(n) == old(outbox)@);
                        assert(outbox@[n] == first.last());
                        assert(user_registration(
                            old(store)@,
                            store@,
                            old(outbox)@,
                            outbox@,
                            r,
                            *config,
                            now,
                            props,
                            w,
                        ));
                    }
                    r
                },
            }
        },
    }
}

/// Whether the user `user_id` must wait before another challenge goes out:
/// their latest one is less than fifteen minutes old at `now`.
pub open spec fn cooling_down(s: Tables, now: i64, user_id: i64) -> bool {
    verification_challenge_service::latest_time(
        s.verification_challenges,
        verification_challenge_service::of_creator(user_id),
    ) matches Some(time) && time + FIFTEEN_MINUTES > now
}

/// The challenge that the owner of the API key under `api_key_hash` issues
/// for the address `email`, with the owner's current name, or why it is
/// refused. The checks come in this order: the address is not empty, the key
/// is valid, a challenge for a parent finds no parent permission yet, the
/// owner is not cooling down, the owner has a name, and no challenge is
/// stored under `hash`.
pub open spec fn issuance(
    s: Tables,
    now: i64,
    api_key_hash: Seq<char>,
    email: String,
    to_parent: bool,
    hash: String,
) -> Result<(VerificationChallenge, UserData), AuthError> {
    if email@.len() == 0 {
        Err(AuthError::EmailBounced)
    } else {
        match valid_api_key(s, now, api_key_hash) {
            Err(e) => Err(e),
            Ok(k) => if to_parent && latest(
                s.parent_permissions,
                parent_permission_service::of_user(k.creator_user_id),
            ) is Some {
                Err(AuthError::ParentPermissionExistent)
            } else if cooling_down(s, now, k.creator_user_id) {
                Err(AuthError::EmailUnknown)
            } else {
                match latest(s.user_data, user_data_service::of_user(k.creator_user_id)) {
                    None => Err(AuthError::UserDataNonexistent),
                    Some(d) => if latest(
                        s.verification_challenges,
                        verification_challenge_service::with_hash(hash@),
                    ) is Some {
                        Err(AuthError::InternalServerError)
                    } else {
                        Ok(
                            (
                                VerificationChallenge {
                                    verification_challenge_key_hash: hash,
                                    creation_time: now,
                                    creator_user_id: k.creator_user_id,
                                    to_parent,
                                    email,
                                },
                                d,
                            ),
                        )
                    },
                }
            },
        }
    }
}

/// The tables after an operation that stores the challenge of `r`, if any.
pub open spec fn with_challenge(
    s: Tables,
    r: Result<(VerificationChallenge, UserData), AuthError>,
) -> Tables {
    match r {
        Ok((row, _)) => Tables {
            verification_challenges: s.verification_challenges.push(row),
            ..s
        },
        Err(_) => s,
    }
}

/// Issues a challenge for the address `email` on behalf of the owner of the
/// API key under `api_key_hash`, and stores it under `hash`.
pub fn issue(
    store: &mut Store,
    now: i64,
    api_key_hash: &str,
    email: String,
    to_parent: bool,
    hash: String,
) -> (r: Result<(VerificationChallenge, UserData), AuthError>)
    requires
        old(store).wf(),
    ensures
        final(store).wf(),
        r == issuance(old(store)@, now, api_key_hash@, email, to_parent, hash),
        final(store)@ == with_challenge(old(store)@, r),
{
    if email.as_str().is_empty() {
        return Err(AuthError::EmailBounced);
    }
    let api_key = match resolve_valid_noverify(store, now, api_key_hash) {
        Ok(k) => k,
        Err(e) => {
            return Err(e);
        },
    };
    if to_parent && parent_permission_service::get_by_user_id(store, api_key.creator_user_id)
        .is_some() {
        return Err(AuthError::ParentPermissionExistent);
    }
    match verification_challenge_service::get_latest_time_for_creator(
        store,
        api_key.creator_user_id,
    ) {
        Some(time) => {
            if time as i128 + FIFTEEN_MINUTES as i128 > now as i128 {
                return Err(AuthError::EmailUnknown);
            }
        },
        None => {},
    }
    let user_data = match user_data_service::get_by_user_id(store, api_key.creator_user_id) {
        Some(d) => d,
        None => {
            return Err(AuthError::UserDataNonexistent);
        },
    };
    match verification_challenge_service::add(
        store,
        now,
        hash,
        email,
        api_key.creator_user_id,
        to_parent,
    ) {
        Ok(row) => Ok((row, user_data)),
        Err(e) => Err(report_store_err(e)),
    }
}

/// Whether `after` holds what `before` held and then the mail of the
/// challenge of `r`, if any.
pub open spec fn challenge_mail(
    before: Seq<MailNewProps>,
    after: Seq<MailNewProps>,
    config: Config,
    r: Result<(VerificationChallenge, UserData), AuthError>,
    key: Seq<char>,
) -> bool {
    match r {
        Err(_) => after == before,
        Ok((row, d)) => {
            &&& after.len() == before.len() + 1
            &&& after.drop_last() == before
            &&& if row.to_parent {
                is_parent_permission_mail(
                    after.last(),
                    row.email@,
                    d.name@,
                    config.site_external_url@,
                    key,
                )
            } else {
                is_email_verification_mail(
                    after.last(),
                    row.email@,
                    d.name@,
                    config.site_external_url@,
                    key,
                )
            }
        },
    }
}

/// Whether `s2`, `after` and `r` are the tables, the outbox and the answer
/// after the request `props` for a challenge on the tables `s` that drew the
/// token `t`.
pub open spec fn challenge_request(
    s: Tables,
    s2: Tables,
    before: Seq<MailNewProps>,
    after: Seq<MailNewProps>,
    r: Result<response::VerificationChallenge, AuthError>,
    config: Config,
    now: i64,
    props: VerificationChallengeNewProps,
    t: Token,
) -> bool {
    let outcome = issuance(s, now, hashed(props.api_key@), props.email, props.to_parent, t.hash);
    &&& is_fresh(t)
    &&& s2 == with_challenge(s, outcome)
    &&& challenge_mail(before, after, config, outcome, t.key@)
    &&& r == match outcome {
        Ok((row, _)) => Ok(filled_verification_challenge(row)),
        Err(e) => Err(e),
    }
}

/// Sends a verification challenge to an address: to the user's own, or to a
/// parent's where `to_parent` is set.
pub fn verification_challenge_new(
    config: &Config,
    store: &mut Store,
    outbox: &mut Vec<MailNewProps>,
    now: i64,
    props: VerificationChallengeNewProps,
) -> (r: Result<response::VerificationChallenge, AuthError>)
    requires
        old(store).wf(),
    ensures
        final(store).wf(),
        exists|t: Token| #[trigger]
            challenge_request(
                old(store)@,
                final(store)@,
                old(outbox)@,
                final(outbox)@,
                r,
                *config,
                now,
                props,
                t,
            ),
{
    let api_key_hash = hash_str(props.api_key.as_str());
    let key = gen_random_string();
    let hash = hash_str(key.as_str());
    let ghost t = Token { key, hash };
    let r = match issue(store, now, api_key_hash.as_str(), props.email, props.to_parent, hash) {
        Err(e) => Err(e),
        Ok((row, user_data)) => {
            if row.to_parent {
                send_parent_permission_email(
                    outbox,
                    row.email.as_str(),
                    user_data.name.as_str(),
                    config.site_external_url.as_str(),
                    key.as_str(),
                );
            } else {
                send_email_verification_email(
                    outbox,
                    row.email.as_str(),
                    user_data.name.as_str(),
                    config.site_external_url.as_str(),
                    key.as_str(),
                );
            }
            Ok(fill_verification_challenge(row))
        },
    };
    assert(challenge_request(
        old(store)@,
        store@,
        old(outbox)@,
        outbox@,
        r,
        *config,
        now,
        props,
        t,
    ));
    r
}

/// The tables after an operation that stores the user data row of `r`, if
/// any.
pub open spec fn with_user_data(s: Tables, r: Result<UserData, AuthError>) -> Tables {
    match r {
        Ok(row) => Tables { user_data: s.user_data.push(row), ..s },
        Err(_) => s,
    }
}

/// The user data row that the owner of the API key under `api_key_hash`
/// stores to take the name `user_name`, or why it is refused.
pub open spec fn renaming(s: Tables, now: i64, api_key_hash: Seq<char>, user_name: String) -> Result<
    UserData,
    AuthError,
> {
    match valid_api_key(s, now, api_key_hash) {
        Err(e) => Err(e),
        Ok(k) => if s.user_data.len() >= i64::MAX {
            Err(AuthError::InternalServerError)
        } else {
            Ok(
                UserData {
                    user_data_id: (s.user_data.len() + 1) as i64,
                    creation_time: now,
                    creator_user_id: k.creator_user_id,
                    name: user_name,
                },
            )
        },
    }
}

/// Gives the owner of an API key a new name.
pub fn user_data_new(store: &mut Store, now: i64, props: UserDataNewProps) -> (r: Result<
    response::UserData,
    AuthError,
>)
    requires
        old(store).wf(),
    ensures
        final(store).wf(),
        final(store)@ == with_user_data(
            old(store)@,
            renaming(old(store)@, now, hashed(props.api_key@), props.user_name),
        ),
        r == match renaming(old(store)@, now, hashed(props.api_key@), props.user_name) {
            Ok(row) => Ok(filled_user_data(row)),
            Err(e) => Err(e),
        },
{
    let creator_key = match get_api_key_if_valid_noverify(store, now, props.api_key.as_str()) {
        Ok(k) => k,
        Err(e) => {
            return Err(e);
        },
    };
    match user_data_service::add(store, now, creator_key.creator_user_id, props.user_name) {
        Ok(row) => Ok(fill_user_data(row)),
        Err(e) => Err(report_store_err(e)),
    }
}

/// The password reset that a request for the address `user_email` stores
/// under `hash`, or why it is refused: the address must be the current
/// address of a user, and no password reset may be stored under `hash`.
pub open spec fn reset_request(s: Tables, now: i64, user_email: Seq<char>, hash: String) -> Result<
    PasswordReset,
    AuthError,
> {
    match latest(s.emails, email_service::current_for_address(s, user_email)) {
        None => Err(AuthError::EmailNonexistent),
        Some(e) => if latest(s.password_resets, password_reset_service::with_hash(hash@))
            is Some {
            Err(AuthError::InternalServerError)
        } else {
            Ok(
                PasswordReset {
                    password_reset_key_hash: hash,
                    creation_time: now,
                    creator_user_id: e.creator_user_id,
                },
            )
        },
    }
}

/// The tables after an operation that stores the password reset of `r`, if
/// any.
pub open spec fn with_password_reset(s: Tables, r: Result<PasswordReset, AuthError>) -> Tables {
    match r {
        Ok(row) => Tables { password_resets: s.password_resets.push(row), ..s },
        Err(_) => s,
    }
}

/// Stores a password reset under `hash` for the user whose current address
/// is `user_email`.
pub fn request_reset(store: &mut Store, now: i64, user_email: &str, hash: String) -> (r: Result<
    PasswordReset,
    AuthError,
>)
    requires
        old(store).wf(),
    ensures
        final(store).wf(),
        r == reset_request(old(store)@, now, user_email@, hash),
        final(store)@ == with_password_reset(old(store)@, r),
{
    let email = match email_service::get_by_email(store, user_email) {
        Some(e) => e,
        None => {
            return Err(AuthError::EmailNonexistent);
        },
    };
    match password_reset_service::add(store, now, hash, email.creator_user_id) {
        Ok(row) => Ok(row),
        Err(e) => Err(report_store_err(e)),
    }
}

/// Whether `s2`, `after` and `r` are the tables, the outbox and the answer
/// after the request `props` for a password reset on the tables `s` that
/// drew the token `t`.
pub open spec fn password_reset_request(
    s: Tables,
    s2: Tables,
    before: Seq<MailNewProps>,
    after: Seq<MailNewProps>,
    r: Result<response::PasswordReset, AuthError>,
    config: Config,
    now: i64,
    props: PasswordResetNewProps,
    t: Token,
) -> bool {
    let outcome = reset_request(s, now, props.user_email@, t.hash);
    &&& is_fresh(t)
    &&& s2 == with_password_reset(s, outcome)
    &&& match outcome {
        Ok(row) => {
            &&& r == Ok::<response::PasswordReset, AuthError>(filled_password_reset(row))
            &&& after.len() == before.len() + 1
            &&& after.drop_last() == before
            &&& is_password_reset_mail(
                after.last(),
                props.user_email@,
                config.site_external_url@,
                t.key@,
            )
        },
        Err(e) => r == Err::<response::PasswordReset, AuthError>(e) && after == before,
    }
}

/// Starts the recovery of a password: sends a link with a fresh token to a
/// confirmed address.
pub fn password_reset_new(
    config: &Config,
    store: &mut Store,
    outbox: &mut Vec<MailNewProps>,
    now: i64,
    props: PasswordResetNewProps,
) -> (r: Result<response::PasswordReset, AuthError>)
    requires
        old(store).wf(),
    ensures
        final(store).wf(),
        exists|t: Token| #[trigger]
            password_reset_request(
                old(store)@,
                final(store)@,
                old(outbox)@,
                final(outbox)@,
                r,
                *config,
                now,
                props,
                t,
            ),
{
    let raw_key = gen_random_string();
    let hash = hash_str(raw_key.as_str());
    let ghost t = Token { key: raw_key, hash };
    let r = match request_reset(store, now, props.user_email.as_str(), hash) {
        Err(e) => Err(e),
        Ok(row) => {
            send_password_reset_email(
                outbox,
                props.user_email.as_str(),
                config.site_external_url.as_str(),
                raw_key.as_str(),
            );
            Ok(fill_password_reset(row))
        },
    };
    assert(password_reset_request(
        old(store)@,
        store@,
        old(outbox)@,
        outbox@,
        r,
        *config,
        now,
        props,
        t,
    ));
    r
}

/// The password reset under `hash` that may still produce the password
/// `new_password` at `now`, or why it may not. The checks come in this
/// order: the password reset exists, has produced no password yet, is
/// inside its window, and the new password meets the password policy.
pub open spec fn reset_check(s: Tables, now: i64, hash: Seq<char>, new_password: Seq<char>) -> Result<
    PasswordReset,
    AuthError,
> {
    match latest(s.password_resets, password_reset_service::with_hash(hash)) {
        None => Err(AuthError::PasswordResetNonexistent),
        Some(p) => if latest(
            s.passwords,
            password_service::with_reset_hash(p.password_reset_key_hash@),
        ) is Some {
            Err(AuthError::PasswordExistent)
        } else if timed_out(p.creation_time, now) {
            Err(AuthError::PasswordResetTimedOut)
        } else if !secure_password(new_password) {
            Err(AuthError::PasswordInsecure)
        } else {
            Ok(p)
        },
    }
}

/// Decides whether the password reset under `password_reset_key_hash` may
/// produce the password `new_password`.
pub fn check_reset(store: &Store, now: i64, password_reset_key_hash: &str, new_password: &str) -> (r:
    Result<PasswordReset, AuthError>)
    ensures
        r == reset_check(store@, now, password_reset_key_hash@, new_password@),
{
    let psr = match password_reset_service::get_by_password_reset_key_hash(
        store,
        password_reset_key_hash,
    ) {
        Some(p) => p,
        None => {
            return Err(AuthError::PasswordResetNonexistent);
        },
    };
    if password_service::exists_by_password_reset_key_hash(
        store,
        psr.password_reset_key_hash.as_str(),
    ) {
        return Err(AuthError::PasswordExistent);
    }
    if is_timed_out(psr.creation_time, now) {
        return Err(AuthError::PasswordResetTimedOut);
    }
    if !is_secure_password(new_password) {
        return Err(AuthError::PasswordInsecure);
    }
    Ok(psr)
}

/// The password row that makes `password_hash` the password of the user
/// `user_id`, or why it is refused.
pub open spec fn password_setting(
    s: Tables,
    now: i64,
    user_id: i64,
    password_hash: String,
    password_reset_key_hash: Option<String>,
) -> Result<Password, AuthError> {
    if s.passwords.len() >= i64::MAX {
        Err(AuthError::InternalServerError)
    } else {
        Ok(
            Password {
                password_id: (s.passwords.len() + 1) as i64,
                creation_time: now,
                creator_user_id: user_id,
                password_hash,
                password_reset_key_hash,
            },
        )
    }
}

/// The tables after an operation that stores the password row of `r`, if
/// any.
pub open spec fn with_password(s: Tables, r: Result<Password, AuthError>) -> Tables {
    match r {
        Ok(row) => Tables { passwords: s.passwords.push(row), ..s },
        Err(_) => s,
    }
}

/// Makes `password_hash` the password of the user `user_id`; with a reset
/// hash the password counts as produced by that password reset.
pub fn set_password(
    store: &mut Store,
    now: i64,
    user_id: i64,
    password_hash: String,
    password_reset_key_hash: Option<String>,
) -> (r: Result<Password, AuthError>)
    requires
        old(store).wf(),
    ensures
        final(store).wf(),
        r == password_setting(old(store)@, now, user_id, password_hash, password_reset_key_hash),
        final(store)@ == with_password(old(store)@, r),
{
    match password_service::add(store, now, user_id, password_hash, password_reset_key_hash) {
        Ok(row) => Ok(row),
        Err(e) => Err(report_store_err(e)),
    }
}

/// Whether `s2` and `r` are the tables and the answer after the password
/// `new_password` was hashed to `password_hash` and set for the user
/// `user_id` on the tables `s`.
pub open spec fn password_set(
    s: Tables,
    s2: Tables,
    r: Result<response::Password, AuthError>,
    now: i64,
    user_id: i64,
    new_password: Seq<char>,
    password_hash: String,
    password_reset_key_hash: Option<String>,
) -> bool {
    let outcome = password_setting(s, now, user_id, password_hash, password_reset_key_hash);
    &&& is_password_hash(password_hash@, new_password)
    &&& s2 == with_password(s, outcome)
    &&& r == match outcome {
        Ok(row) => filled_password(s2, row),
        Err(e) => Err(e),
    }
}

/// Hashes `new_password` and sets it for the user `user_id`.
fn hash_and_set_password(
    store: &mut Store,
    now: i64,
    user_id: i64,
    new_password: &str,
    password_reset_key_hash: Option<String>,
) -> (r: Result<response::Password, AuthError>)
    requires
        old(store).wf(),
    ensures
        final(store).wf(),
        ({
            ||| r == Err::<response::Password, AuthError>(AuthError::Unknown) && final(store)@
                == old(store)@ && encode_utf8(new_password@).len() > u32::MAX
            ||| exists|password_hash: String| #[trigger]
                password_set(
                    old(store)@,
                    final(store)@,
                    r,
                    now,
                    user_id,
                    new_password@,
                    password_hash,
                    password_reset_key_hash,
                )
        }),
{
    let password_hash = match hash_password(new_password) {
        Ok(hash) => hash,
        Err(e) => {
            return Err(report_internal_err(e));
        },
    };
    let ghost witness = password_hash;
    let r = match set_password(store, now, user_id, password_hash, password_reset_key_hash) {
        Ok(row) => fill_password(store, row),
        Err(e) => Err(e),
    };
    assert(password_set(
        old(store)@,
        store@,
        r,
        now,
        user_id,
        new_password@,
        witness,
        password_reset_key_hash,
    ));
    r
}

/// Completes the recovery of a password: sets a new password with the token
/// of a password reset, which serves once.
pub fn password_new_reset(store: &mut Store, now: i64, props: PasswordNewResetProps) -> (r: Result<
    response::Password,
    AuthError,
>)
    requires
        old(store).wf(),
    ensures
        final(store).wf(),
        match reset_check(
            old(store)@,
            now,
            hashed(props.password_reset_key@),
            props.new_password@,
        ) {
            Err(e) => r == Err::<response::Password, AuthError>(e) && final(store)@ == old(store)@,
            Ok(psr) => {
                ||| r == Err::<response::Password, AuthError>(AuthError::Unknown) && final(store)@
                    == old(store)@ && encode_utf8(props.new_password@).len() > u32::MAX
                ||| exists|password_hash: String| #[trigger]
                    password_set(
                        old(store)@,
                        final(store)@,
                        r,
                        now,
                        psr.creator_user_id,
                        props.new_password@,
                        password_hash,
                        Some(psr.password_reset_key_hash),
                    )
            },
        },
{
    let hash = hash_str(props.password_reset_key.as_str());
    let psr = match check_reset(store, now, hash.as_str(), props.new_password.as_str()) {
        Ok(p) => p,
        Err(e) => {
            return Err(e);
        },
    };
    hash_and_set_password(
        store,
        now,
        psr.creator_user_id,
        props.new_password.as_str(),
        Some(psr.password_reset_key_hash),
    )
}

/// Why the owner of the API key under `api_key_hash` may not change the
/// password to `new_password`, or the key where they may.
pub open spec fn change_check(s: Tables, now: i64, api_key_hash: Seq<char>, new_password: Seq<char>) -> Result<
    ApiKey,
    AuthError,
> {
    match valid_api_key(s, now, api_key_hash) {
        Err(e) => Err(e),
        Ok(k) => if !secure_password(new_password) {
            Err(AuthError::PasswordInsecure)
        } else {
            Ok(k)
        },
    }
}

/// Changes the password of the owner of an API key.
pub fn password_new_change(store: &mut Store, now: i64, props: PasswordNewChangeProps) -> (r:
    Result<response::Password, AuthError>)
    requires
        old(store).wf(),
    ensures
        final(store).wf(),
        match change_check(old(store)@, now, hashed(props.api_key@), props.new_password@) {
            Err(e) => r == Err::<response::Password, AuthError>(e) && final(store)@ == old(store)@,
            Ok(k) => {
                ||| r == Err::<response::Password, AuthError>(AuthError::Unknown) && final(store)@
                    == old(store)@ && encode_utf8(props.new_password@).len() > u32::MAX
                ||| exists|password_hash: String| #[trigger]
                    password_set(
                        old(store)@,
                        final(store)@,
                        r,
                        now,
                        k.creator_user_id,
                        props.new_password@,
                        password_hash,
                        None,
                    )
            },
        },
{
    let creator_key = match get_api_key_if_valid_noverify(store, now, props.api_key.as_str()) {
        Ok(k) => k,
        Err(e) => {
            return Err(e);
        },
    };
    if !is_secure_password(props.new_password.as_str()) {
        return Err(AuthError::PasswordInsecure);
    }
    hash_and_set_password(
        store,
        now,
        creator_key.creator_user_id,
        props.new_password.as_str(),
        None,
    )
}

/// The user with the identifier `user_id`.
pub open spec fn found_user(s: Tables, user_id: i64) -> Result<response::User, AuthError> {
    match latest(s.users, user_service::with_id(user_id)) {
        Some(u) => Ok(filled_user(u)),
        None => Err(AuthError::UserNonexistent),
    }
}

/// Looks a user up by identifier. This operation is for other services of
/// the site and asks for no API key.
pub fn get_user_by_id(store: &Store, props: GetUserByIdProps) -> (r: Result<
    response::User,
    AuthError,
>)
    requires
        store.wf(),
    ensures
        r == found_user(store@, props.user_id),
{
    match user_service::get_by_user_id(store, props.user_id) {
        Some(u) => Ok(fill_user(u)),
        None => Err(AuthError::UserNonexistent),
    }
}

/// Looks up the owner of an API key, which must be valid and whose owner
/// must have a parent permission.
pub fn get_user_by_api_key_if_valid(store: &Store, now: i64, props: GetUserByApiKeyIfValid) -> (r:
    Result<response::User, AuthError>)
    requires
        store.wf(),
    ensures
        r == match verified_api_key(store@, now, hashed(props.api_key@)) {
            Ok(k) => found_user(store@, k.creator_user_id),
            Err(e) => Err(e),
        },
{
    match get_api_key_if_verified(store, now, props.api_key.as_str()) {
        Ok(k) => match user_service::get_by_user_id(store, k.creator_user_id) {
            Some(u) => Ok(fill_user(u)),
            None => Err(AuthError::UserNonexistent),
        },
        Err(e) => Err(e),
    }
}

} // verus!
