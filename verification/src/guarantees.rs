//! What holds of the workflow operations on every store, proved from the
//! outcomes that their contracts state.
use crate::api_key_service;
use crate::db_types::{
    ApiKey, ApiKeyKind, Email, ParentPermission, Password, PasswordReset, User, UserData,
    VerificationChallenge,
};
use crate::email_service;
use crate::filter::{ascending_by, lemma_filter_keeps_order};
use crate::handlers::{
    cancellation, email_consumption, parent_consumption, password_setting, registered,
    registration_blocked, reset_check, timed_out, valid_api_key, valid_issuance,
    verified_api_key, with_api_key, with_challenge, with_email, with_parent_permission,
    with_password, with_password_reset, with_user_data, FIFTEEN_MINUTES,
};
use crate::parent_permission_service;
use crate::password_service;
use crate::request::{
    ApiKeyViewProps, EmailViewProps, ParentPermissionViewProps, PasswordViewProps,
    UserDataViewProps, UserViewProps,
};
use crate::response::AuthError;
use crate::store::{
    latest, lemma_absent, lemma_latest_none, lemma_latest_push, lemma_latest_some, Tables,
};
use crate::user_data_service;
use crate::user_service;
use crate::verification_challenge_service;
use vstd::prelude::*;

verus! {

/// A challenge that is stored is never answered as nonexistent, whatever it
/// is consumed for and whenever.
pub proof fn lemma_stored_challenge_is_found(s: Tables, now: i64, hash: String)
    requires
        latest(s.verification_challenges, verification_challenge_service::with_hash(hash@))
            is Some,
    ensures
        email_consumption(s, now, hash) != Err::<Email, AuthError>(
            AuthError::VerificationChallengeNonexistent,
        ),
        parent_consumption(s, now, hash) != Err::<ParentPermission, AuthError>(
            AuthError::VerificationChallengeNonexistent,
        ),
{
}

/// A challenge that is consumed inside its window for the purpose that it
/// was not issued for is refused as of the wrong kind.
pub proof fn lemma_wrong_purpose_is_wrong_kind(s: Tables, now: i64, hash: String)
    requires
        latest(s.verification_challenges, verification_challenge_service::with_hash(hash@))
            matches Some(c) && !timed_out(c.creation_time, now),
    ensures
        latest(s.verification_challenges, verification_challenge_service::with_hash(hash@))
            matches Some(c) && if c.to_parent {
            email_consumption(s, now, hash) == Err::<Email, AuthError>(
                AuthError::VerificationChallengeWrongKind,
            )
        } else {
            parent_consumption(s, now, hash) == Err::<ParentPermission, AuthError>(
                AuthError::VerificationChallengeWrongKind,
            )
        },
{
}

/// A challenge is timed out after fifteen minutes and not before: the last
/// millisecond of the window is inside. Past the window every consumption is
/// answered as timed out; inside it none is, and whether a consumption
/// succeeds does not depend on the time.
pub proof fn lemma_challenge_window(s: Tables, now: i64, hash: String)
    requires
        latest(s.verification_challenges, verification_challenge_service::with_hash(hash@))
            is Some,
    ensures
        ({
            let c = latest(
                s.verification_challenges,
                verification_challenge_service::with_hash(hash@),
            ).unwrap();
            &&& now == c.creation_time + FIFTEEN_MINUTES ==> !timed_out(c.creation_time, now)
            &&& now == c.creation_time + FIFTEEN_MINUTES + 1 ==> timed_out(c.creation_time, now)
            &&& timed_out(c.creation_time, now) ==> {
                &&& email_consumption(s, now, hash) == Err::<Email, AuthError>(
                    AuthError::VerificationChallengeTimedOut,
                )
                &&& parent_consumption(s, now, hash) == Err::<ParentPermission, AuthError>(
                    AuthError::VerificationChallengeTimedOut,
                )
            }
            &&& !timed_out(c.creation_time, now) ==> {
                &&& email_consumption(s, now, hash) != Err::<Email, AuthError>(
                    AuthError::VerificationChallengeTimedOut,
                )
                &&& parent_consumption(s, now, hash) != Err::<ParentPermission, AuthError>(
                    AuthError::VerificationChallengeTimedOut,
                )
                &&& email_consumption(s, now, hash) is Ok <==> email_consumption(
                    s,
                    c.creation_time,
                    hash,
                ) is Ok
                &&& parent_consumption(s, now, hash) is Ok <==> parent_consumption(
                    s,
                    c.creation_time,
                    hash,
                ) is Ok
            }
        }),
{
}

/// A challenge confirms an email once: after it was consumed for an email,
/// another attempt inside the window is answered as used.
pub proof fn lemma_email_challenge_serves_once(
    s: Tables,
    now: i64,
    hash: String,
    later: i64,
    again: String,
)
    requires
        email_consumption(s, now, hash) is Ok,
        again@ == hash@,
        !timed_out(
            latest(
                s.verification_challenges,
                verification_challenge_service::with_hash(hash@),
            ).unwrap().creation_time,
            later,
        ),
    ensures
        email_consumption(with_email(s, email_consumption(s, now, hash)), later, again) == Err::<
            Email,
            AuthError,
        >(AuthError::VerificationChallengeUsed),
{
    let row = email_consumption(s, now, hash).unwrap();
    lemma_latest_push(s.emails, email_service::with_hash(hash@), row);
}

/// A challenge authorizes a parent permission once: after it was consumed
/// for a parent permission, another attempt inside the window is answered as
/// used.
pub proof fn lemma_parent_challenge_serves_once(
    s: Tables,
    now: i64,
    hash: String,
    later: i64,
    again: String,
)
    requires
        parent_consumption(s, now, hash) is Ok,
        again@ == hash@,
        !timed_out(
            latest(
                s.verification_challenges,
                verification_challenge_service::with_hash(hash@),
            ).unwrap().creation_time,
            later,
        ),
    ensures
        parent_consumption(
            with_parent_permission(s, parent_consumption(s, now, hash)),
            later,
            again,
        ) == Err::<ParentPermission, AuthError>(AuthError::VerificationChallengeUsed),
{
    let row = parent_consumption(s, now, hash).unwrap();
    lemma_latest_push(s.parent_permissions, parent_permission_service::with_hash(hash@), row);
}

/// A key whose latest row is a cancel row is unauthorized at every time.
pub proof fn lemma_cancelled_key_is_unauthorized(s: Tables, now: i64, hash: Seq<char>)
    requires
        latest(s.api_keys, api_key_service::with_hash(hash)) matches Some(k) && k.api_key_kind
            == ApiKeyKind::Cancel,
    ensures
        valid_api_key(s, now, hash) == Err::<ApiKey, AuthError>(AuthError::ApiKeyUnauthorized),
        verified_api_key(s, now, hash) == Err::<ApiKey, AuthError>(AuthError::ApiKeyUnauthorized),
{
}

/// After a cancellation the cancelled key is unauthorized at every time.
pub proof fn lemma_cancellation_revokes(
    s: Tables,
    now: i64,
    caller: Seq<char>,
    target: Seq<char>,
    later: i64,
)
    requires
        cancellation(s, now, caller, target) is Ok,
    ensures
        valid_api_key(with_api_key(s, cancellation(s, now, caller, target)), later, target)
            == Err::<ApiKey, AuthError>(AuthError::ApiKeyUnauthorized),
{
    let row = cancellation(s, now, caller, target).unwrap();
    let i = lemma_latest_some(s.api_keys, api_key_service::with_hash(target));
    lemma_latest_push(s.api_keys, api_key_service::with_hash(target), row);
}

/// A key cancels no key of another user: with two keys that both resolve
/// and whose owners differ, the cancellation is answered as unauthorized and
/// stores no row.
pub proof fn lemma_cancel_across_owners(s: Tables, now: i64, caller: Seq<char>, target: Seq<char>)
    requires
        verified_api_key(s, now, caller) is Ok,
        verified_api_key(s, now, target) is Ok,
        verified_api_key(s, now, caller).unwrap().creator_user_id != verified_api_key(
            s,
            now,
            target,
        ).unwrap().creator_user_id,
    ensures
        cancellation(s, now, caller, target) == Err::<ApiKey, AuthError>(
            AuthError::ApiKeyUnauthorized,
        ),
        with_api_key(s, cancellation(s, now, caller, target)) == s,
{
}

/// A refused cancellation stores no row, whatever the reason.
pub proof fn lemma_refused_cancellation_stores_nothing(
    s: Tables,
    now: i64,
    caller: Seq<char>,
    target: Seq<char>,
)
    requires
        cancellation(s, now, caller, target) is Err,
    ensures
        with_api_key(s, cancellation(s, now, caller, target)) == s,
{
}

/// A key that was issued at `now` for `duration` milliseconds is valid up to
/// and including the time `now + duration`, and unauthorized after it.
pub proof fn lemma_issued_key_lifetime(
    s: Tables,
    now: i64,
    user_id: i64,
    hash: String,
    duration: i64,
    later: i64,
)
    requires
        valid_issuance(s, now, user_id, hash, duration) is Ok,
    ensures
        valid_api_key(
            with_api_key(s, valid_issuance(s, now, user_id, hash, duration)),
            later,
            hash@,
        ) == if later > now + duration {
            Err::<ApiKey, AuthError>(AuthError::ApiKeyUnauthorized)
        } else {
            valid_issuance(s, now, user_id, hash, duration)
        },
{
    let row = valid_issuance(s, now, user_id, hash, duration).unwrap();
    lemma_latest_push(s.api_keys, api_key_service::with_hash(hash@), row);
}

/// A password reset serves once: after it produced a password, every other
/// attempt with it is answered with an existent password, at every time and
/// with every new password.
pub proof fn lemma_password_reset_serves_once(
    s: Tables,
    now: i64,
    hash: Seq<char>,
    new_password: Seq<char>,
    password_hash: String,
    later: i64,
    other_password: Seq<char>,
)
    requires
        reset_check(s, now, hash, new_password) is Ok,
        password_setting(
            s,
            now,
            reset_check(s, now, hash, new_password).unwrap().creator_user_id,
            password_hash,
            Some(reset_check(s, now, hash, new_password).unwrap().password_reset_key_hash),
        ) is Ok,
    ensures
        reset_check(
            with_password(
                s,
                password_setting(
                    s,
                    now,
                    reset_check(s, now, hash, new_password).unwrap().creator_user_id,
                    password_hash,
                    Some(reset_check(s, now, hash, new_password).unwrap().password_reset_key_hash),
                ),
            ),
            later,
            hash,
            other_password,
        ) == Err::<PasswordReset, AuthError>(AuthError::PasswordExistent),
{
    let psr = reset_check(s, now, hash, new_password).unwrap();
    let row = password_setting(
        s,
        now,
        psr.creator_user_id,
        password_hash,
        Some(psr.password_reset_key_hash),
    ).unwrap();
    lemma_latest_push(
        s.passwords,
        password_service::with_reset_hash(psr.password_reset_key_hash@),
        row,
    );
}

/// A key is valid exactly when the row stored last under its hash is a valid
/// one and the time is not past its creation time and duration.
pub proof fn lemma_validity(s: Tables, now: i64, hash: Seq<char>)
    ensures
        valid_api_key(s, now, hash) is Ok <==> (latest(s.api_keys, api_key_service::with_hash(hash))
            matches Some(k) && k.api_key_kind == ApiKeyKind::Valid && now <= k.creation_time
            + k.duration),
        valid_api_key(s, now, hash) matches Ok(k) ==> latest(
            s.api_keys,
            api_key_service::with_hash(hash),
        ) == Some(k),
{
}

/// Whether no two email rows of `s` were confirmed by one challenge.
pub open spec fn emails_single_use(s: Tables) -> bool {
    forall|i: int, j: int|
        0 <= i < j < s.emails.len() ==> (#[trigger] s.emails[i]).verification_challenge_key_hash@
            != (#[trigger] s.emails[j]).verification_challenge_key_hash@
}

/// Whether no two parent permissions of `s` were authorized by one
/// challenge.
pub open spec fn parent_permissions_single_use(s: Tables) -> bool {
    forall|i: int, j: int|
        0 <= i < j < s.parent_permissions.len() ==> !((
        #[trigger] s.parent_permissions[i]).verification_challenge_key_hash matches Some(a) && (
        #[trigger] s.parent_permissions[j]).verification_challenge_key_hash matches Some(b) && a@
            == b@)
}

/// Consuming challenges for emails never lets one challenge confirm two
/// emails.
pub proof fn lemma_email_consumption_keeps_single_use(s: Tables, now: i64, hash: String)
    requires
        emails_single_use(s),
    ensures
        emails_single_use(with_email(s, email_consumption(s, now, hash))),
{
    if email_consumption(s, now, hash) is Ok {
        lemma_absent(s.emails, email_service::with_hash(hash@));
        let after = with_email(s, email_consumption(s, now, hash));
        assert forall|i: int, j: int| 0 <= i < j < after.emails.len() implies (
        #[trigger] after.emails[i]).verification_challenge_key_hash@ != (
        #[trigger] after.emails[j]).verification_challenge_key_hash@ by {
            if j < s.emails.len() {
                assert(after.emails[i] == s.emails[i]);
                assert(after.emails[j] == s.emails[j]);
            } else {
                assert(after.emails[i] == s.emails[i]);
                assert(!email_service::with_hash(hash@)(s.emails[i]));
            }
        }
    }
}

/// Consuming challenges for parent permissions never lets one challenge
/// authorize two parent permissions.
pub proof fn lemma_parent_consumption_keeps_single_use(s: Tables, now: i64, hash: String)
    requires
        parent_permissions_single_use(s),
    ensures
        parent_permissions_single_use(
            with_parent_permission(s, parent_consumption(s, now, hash)),
        ),
{
    if parent_consumption(s, now, hash) is Ok {
        lemma_absent(s.parent_permissions, parent_permission_service::with_hash(hash@));
        let after = with_parent_permission(s, parent_consumption(s, now, hash));
        assert forall|i: int, j: int| 0 <= i < j < after.parent_permissions.len() implies !((
        #[trigger] after.parent_permissions[i]).verification_challenge_key_hash matches Some(a)
            && (#[trigger] after.parent_permissions[j]).verification_challenge_key_hash matches Some(
            b,
        ) && a@ == b@) by {
            if j < s.parent_permissions.len() {
                assert(after.parent_permissions[i] == s.parent_permissions[i]);
                assert(after.parent_permissions[j] == s.parent_permissions[j]);
            } else {
                assert(after.parent_permissions[i] == s.parent_permissions[i]);
                assert(!parent_permission_service::with_hash(hash@)(s.parent_permissions[i]));
            }
        }
    }
}

/// A user who registers without naming a parent has a parent permission at
/// once; a user who names a parent has none until the parent's challenge is
/// consumed.
pub proof fn lemma_registration_permission(
    s: Tables,
    now: i64,
    user_name: String,
    password_hash: String,
    user_email: String,
    email_hash: String,
    parent: Option<(String, String)>,
)
    requires
        s.wf(),
        !registration_blocked(s, email_hash@, parent),
        forall|i: int|
            0 <= i < s.parent_permissions.len() ==> (#[trigger] s.parent_permissions[i]).user_id
                <= s.users.len(),
    ensures
        latest(
            registered(
                s,
                now,
                user_name,
                password_hash,
                user_email,
                email_hash,
                parent,
            ).parent_permissions,
            parent_permission_service::of_user((s.users.len() + 1) as i64),
        ) is Some <==> parent is None,
{
    let user_id = (s.users.len() + 1) as i64;
    let p = parent_permission_service::of_user(user_id);
    let after = registered(s, now, user_name, password_hash, user_email, email_hash, parent);
    lemma_latest_none(s.parent_permissions, p);
    if parent is None {
        lemma_latest_push(s.parent_permissions, p, after.parent_permissions.last());
        assert(after.parent_permissions.drop_last() == s.parent_permissions);
    }
}

/// Rows are appended, never changed or removed: the tables after an
/// operation hold every row that they held before, in place.
pub proof fn lemma_append_only(
    s: Tables,
    email: Result<Email, AuthError>,
    parent_permission: Result<ParentPermission, AuthError>,
    api_key: Result<ApiKey, AuthError>,
    challenge: Result<(VerificationChallenge, UserData), AuthError>,
    user_data: Result<UserData, AuthError>,
    password_reset: Result<PasswordReset, AuthError>,
    password: Result<Password, AuthError>,
)
    ensures
        s.extended_to(s),
        s.extended_to(with_email(s, email)),
        s.extended_to(with_parent_permission(s, parent_permission)),
        s.extended_to(with_api_key(s, api_key)),
        s.extended_to(with_challenge(s, challenge)),
        s.extended_to(with_user_data(s, user_data)),
        s.extended_to(with_password_reset(s, password_reset)),
        s.extended_to(with_password(s, password)),
{
}

/// A registration appends its rows and changes none.
pub proof fn lemma_registration_appends(
    s: Tables,
    now: i64,
    user_name: String,
    password_hash: String,
    user_email: String,
    email_hash: String,
    parent: Option<(String, String)>,
)
    ensures
        s.extended_to(
            registered(s, now, user_name, password_hash, user_email, email_hash, parent),
        ),
{
}

/// Appending is transitive: what holds the rows of tables that hold the rows
/// of others holds the rows of those.
pub proof fn lemma_extended_transitive(a: Tables, b: Tables, c: Tables)
    requires
        a.extended_to(b),
        b.extended_to(c),
    ensures
        a.extended_to(c),
{
}

/// Every query on a table with identifiers lists its rows by ascending
/// identifier.
pub proof fn lemma_queries_list_by_identifier(
    s: Tables,
    users: UserViewProps,
    user_data: UserDataViewProps,
    emails: EmailViewProps,
    parent_permissions: ParentPermissionViewProps,
    passwords: PasswordViewProps,
    api_keys: ApiKeyViewProps,
)
    requires
        s.wf(),
    ensures
        ascending_by(s.users.filter(user_service::selects(users)), |u: User| u.user_id as int),
        ascending_by(
            s.user_data.filter(user_data_service::selects(s.user_data, user_data)),
            |d: UserData| d.user_data_id as int,
        ),
        ascending_by(
            s.emails.filter(email_service::selects(s, emails)),
            |e: Email| e.email_id as int,
        ),
        ascending_by(
            s.parent_permissions.filter(parent_permission_service::selects(s, parent_permissions)),
            |p: ParentPermission| p.parent_permission_id as int,
        ),
        ascending_by(
            s.passwords.filter(password_service::selects(s.passwords, passwords)),
            |p: Password| p.password_id as int,
        ),
        ascending_by(
            s.api_keys.filter(api_key_service::selects(s.api_keys, api_keys)),
            |k: ApiKey| k.api_key_id as int,
        ),
{
    lemma_filter_keeps_order(s.users, user_service::selects(users), |u: User| u.user_id as int);
    lemma_filter_keeps_order(
        s.user_data,
        user_data_service::selects(s.user_data, user_data),
        |d: UserData| d.user_data_id as int,
    );
    lemma_filter_keeps_order(
        s.emails,
        email_service::selects(s, emails),
        |e: Email| e.email_id as int,
    );
    lemma_filter_keeps_order(
        s.parent_permissions,
        parent_permission_service::selects(s, parent_permissions),
        |p: ParentPermission| p.parent_permission_id as int,
    );
    lemma_filter_keeps_order(
        s.passwords,
        password_service::selects(s.passwords, passwords),
        |p: Password| p.password_id as int,
    );
    lemma_filter_keeps_order(
        s.api_keys,
        api_key_service::selects(s.api_keys, api_keys),
        |k: ApiKey| k.api_key_id as int,
    );
}

/// Cutting a store back undoes what was appended: tables that were
/// extended, cut to the sizes they had, are the tables they were.
pub proof fn lemma_cut_undoes(before: Tables, after: Tables)
    requires
        before.fits(),
        before.extended_to(after),
    ensures
        after.cut_to(before.size()) == before,
{
    assert(after.cut_to(before.size()).users =~= before.users);
    assert(after.cut_to(before.size()).user_data =~= before.user_data);
    assert(after.cut_to(before.size()).verification_challenges =~= before.verification_challenges);
    assert(after.cut_to(before.size()).emails =~= before.emails);
    assert(after.cut_to(before.size()).parent_permissions =~= before.parent_permissions);
    assert(after.cut_to(before.size()).password_resets =~= before.password_resets);
    assert(after.cut_to(before.size()).passwords =~= before.passwords);
    assert(after.cut_to(before.size()).api_keys =~= before.api_keys);
}

} // verus!
