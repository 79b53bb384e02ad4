//! The view operations: the owner of a valid API key queries a table, and
//! each selected row is answered with its projection.
use crate::api_key_service;
use crate::db_types::{
    ApiKey, Email, ParentPermission, Password, User, UserData, VerificationChallenge,
};
use crate::email_service;
use crate::handlers::{
    fill_api_key, fill_email, fill_parent_permission, fill_password, fill_user, fill_user_data,
    fill_verification_challenge, filled_api_key, filled_email, filled_parent_permission,
    filled_password, filled_user, filled_user_data, filled_verification_challenge,
    get_api_key_if_valid_noverify, valid_api_key,
};
use crate::parent_permission_service;
use crate::password_service;
use crate::request::{
    ApiKeyViewProps, EmailViewProps, ParentPermissionViewProps, PasswordViewProps,
    UserDataViewProps, UserViewProps, VerificationChallengeViewProps,
};
use crate::response;
use crate::response::AuthError;
use crate::store::{Store, Tables};
use crate::user_data_service;
use crate::user_service;
use crate::utils::hashed;
use crate::verification_challenge_service;
use vstd::prelude::*;

verus! {

/// The projections of `rows`, in their order.
pub open spec fn mapped<A, B>(rows: Seq<A>, f: spec_fn(A) -> B) -> Seq<B> {
    Seq::new(rows.len(), |i: int| f(rows[i]))
}

/// The projections of `rows`, in their order, or the error of the first row
/// that has none.
pub open spec fn answers<A, B>(rows: Seq<A>, f: spec_fn(A) -> Result<B, AuthError>) -> Result<
    Seq<B>,
    AuthError,
>
    decreases rows.len(),
{
    if rows.len() == 0 {
        Ok(Seq::empty())
    } else {
        match answers(rows.drop_last(), f) {
            Err(e) => Err(e),
            Ok(v) => match f(rows.last()) {
                Err(e) => Err(e),
                Ok(a) => Ok(v.push(a)),
            },
        }
    }
}

/// An error among the first rows is the error of all rows.
pub proof fn lemma_answers_err<A, B>(
    rows: Seq<A>,
    f: spec_fn(A) -> Result<B, AuthError>,
    i: int,
)
    requires
        0 <= i <= rows.len(),
        answers(rows.take(i), f) is Err,
    ensures
        answers(rows, f) == answers(rows.take(i), f),
    decreases rows.len() - i,
{
    if i < rows.len() {
        assert(rows.take(i + 1).drop_last() == rows.take(i));
        lemma_answers_err(rows, f, i + 1);
    } else {
        assert(rows.take(i) == rows);
    }
}

/// The answers to one more row.
pub proof fn lemma_answers_step<A, B>(
    rows: Seq<A>,
    f: spec_fn(A) -> Result<B, AuthError>,
    i: int,
)
    requires
        0 <= i < rows.len(),
    ensures
        answers(rows.take(i + 1), f) == match answers(rows.take(i), f) {
            Err(e) => Err(e),
            Ok(v) => match f(rows[i]) {
                Err(e) => Err(e),
                Ok(a) => Ok(v.push(a)),
            },
        },
{
    assert(rows.take(i + 1).drop_last() == rows.take(i));
}

/// The projection of users.
pub open spec fn user_filler() -> spec_fn(User) -> response::User {
    |u: User| filled_user(u)
}

/// The projection of user data rows.
pub open spec fn user_data_filler() -> spec_fn(UserData) -> response::UserData {
    |d: UserData| filled_user_data(d)
}

/// The projection of API key rows, without a raw key.
pub open spec fn api_key_filler() -> spec_fn(ApiKey) -> response::ApiKey {
    |k: ApiKey| filled_api_key(k, None)
}

/// The projection of email rows on the tables `s`.
pub open spec fn email_filler(s: Tables) -> spec_fn(Email) -> Result<response::Email, AuthError> {
    |e: Email| filled_email(s, e)
}

/// The projection of parent permissions on the tables `s`.
pub open spec fn parent_permission_filler(s: Tables) -> spec_fn(ParentPermission) -> Result<
    response::ParentPermission,
    AuthError,
> {
    |p: ParentPermission| filled_parent_permission(s, p)
}

/// The projection of passwords on the tables `s`.
pub open spec fn password_filler(s: Tables) -> spec_fn(Password) -> Result<
    response::Password,
    AuthError,
> {
    |p: Password| filled_password(s, p)
}

/// The users that a query selects.
pub fn user_view(store: &Store, now: i64, props: UserViewProps) -> (r: Result<
    Vec<response::User>,
    AuthError,
>)
    requires
        store.wf(),
    ensures
        match valid_api_key(store@, now, hashed(props.api_key@)) {
            Err(e) => r == Err::<Vec<response::User>, AuthError>(e),
            Ok(_) => r matches Ok(v) && v@ == mapped(
                store@.users.filter(user_service::selects(props)),
                user_filler(),
            ),
        },
{
    match get_api_key_if_valid_noverify(store, now, props.api_key.as_str()) {
        Ok(_) => {},
        Err(e) => {
            return Err(e);
        },
    }
    let rows = user_service::query(store, &props);
    let mut out: Vec<response::User> = Vec::new();
    let mut i: usize = 0;
    while i < rows.len()
        invariant
            i <= rows@.len(),
            out@ == mapped(rows@.take(i as int), user_filler()),
        decreases rows@.len() - i,
    {
        out.push(fill_user(rows[i].clone()));
        i += 1;
        assert(out@ == mapped(rows@.take(i as int), user_filler()));
    }
    assert(rows@.take(rows@.len() as int) == rows@);
    Ok(out)
}

/// The user data rows that a query selects.
pub fn user_data_view(store: &Store, now: i64, props: UserDataViewProps) -> (r: Result<
    Vec<response::UserData>,
    AuthError,
>)
    requires
        store.wf(),
    ensures
        match valid_api_key(store@, now, hashed(props.api_key@)) {
            Err(e) => r == Err::<Vec<response::UserData>, AuthError>(e),
            Ok(_) => r matches Ok(v) && v@ == mapped(
                store@.user_data.filter(user_data_service::selects(store@.user_data, props)),
                user_data_filler(),
            ),
        },
{
    match get_api_key_if_valid_noverify(store, now, props.api_key.as_str()) {
        Ok(_) => {},
        Err(e) => {
            return Err(e);
        },
    }
    let rows = user_data_service::query(store, &props);
    let mut out: Vec<response::UserData> = Vec::new();
    let mut i: usize = 0;
    while i < rows.len()
        invariant
            i <= rows@.len(),
            out@ == mapped(rows@.take(i as int), user_data_filler()),
        decreases rows@.len() - i,
    {
        out.push(fill_user_data(rows[i].clone()));
        i += 1;
        assert(out@ == mapped(rows@.take(i as int), user_data_filler()));
    }
    assert(rows@.take(rows@.len() as int) == rows@);
    Ok(out)
}

/// The API key rows that a query selects. No answer holds a raw key.
pub fn api_key_view(store: &Store, now: i64, props: ApiKeyViewProps) -> (r: Result<
    Vec<response::ApiKey>,
    AuthError,
>)
    requires
        store.wf(),
    ensures
        match valid_api_key(store@, now, hashed(props.api_key@)) {
            Err(e) => r == Err::<Vec<response::ApiKey>, AuthError>(e),
            Ok(_) => r matches Ok(v) && v@ == mapped(
                store@.api_keys.filter(api_key_service::selects(store@.api_keys, props)),
                api_key_filler(),
            ),
        },
{
    match get_api_key_if_valid_noverify(store, now, props.api_key.as_str()) {
        Ok(_) => {},
        Err(e) => {
            return Err(e);
        },
    }
    let rows = api_key_service::query(store, &props);
    let mut out: Vec<response::ApiKey> = Vec::new();
    let mut i: usize = 0;
    while i < rows.len()
        invariant
            i <= rows@.len(),
            out@ == mapped(rows@.take(i as int), api_key_filler()),
        decreases rows@.len() - i,
    {
        out.push(fill_api_key(rows[i].clone(), None));
        i += 1;
        assert(out@ == mapped(rows@.take(i as int), api_key_filler()));
    }
    assert(rows@.take(rows@.len() as int) == rows@);
    Ok(out)
}

/// The email rows that a query selects, each with its challenge.
pub fn email_view(store: &Store, now: i64, props: EmailViewProps) -> (r: Result<
    Vec<response::Email>,
    AuthError,
>)
    requires
        store.wf(),
    ensures
        match valid_api_key(store@, now, hashed(props.api_key@)) {
            Err(e) => r == Err::<Vec<response::Email>, AuthError>(e),
            Ok(_) => match answers(
                store@.emails.filter(email_service::selects(store@, props)),
                email_filler(store@),
            ) {
                Err(e) => r == Err::<Vec<response::Email>, AuthError>(e),
                Ok(a) => r matches Ok(v) && v@ == a,
            },
        },
{
    match get_api_key_if_valid_noverify(store, now, props.api_key.as_str()) {
        Ok(_) => {},
        Err(e) => {
            return Err(e);
        },
    }
    let rows = email_service::query(store, &props);
    let ghost f = email_filler(store@);
    let mut out: Vec<response::Email> = Vec::new();
    let mut i: usize = 0;
    while i < rows.len()
        invariant
            i <= rows@.len(),
            f == email_filler(store@),
            rows@ == store@.emails.filter(email_service::selects(store@, props)),
            valid_api_key(store@, now, hashed(props.api_key@)) is Ok,
            answers(rows@.take(i as int), f) == Ok::<Seq<response::Email>, AuthError>(out@),
        decreases rows@.len() - i,
    {
        proof {
            lemma_answers_step(rows@, f, i as int);
        }
        match fill_email(store, rows[i].clone()) {
            Ok(a) => {
                out.push(a);
            },
            Err(e) => {
                proof {
                    lemma_answers_err(rows@, f, i + 1);
                }
                return Err(e);
            },
        }
        i += 1;
    }
    assert(rows@.take(rows@.len() as int) == rows@);
    Ok(out)
}

/// The parent permissions that a query selects, each with the challenge
/// that authorized it, if one did.
pub fn parent_permission_view(store: &Store, now: i64, props: ParentPermissionViewProps) -> (r:
    Result<Vec<response::ParentPermission>, AuthError>)
    requires
        store.wf(),
    ensures
        match valid_api_key(store@, now, hashed(props.api_key@)) {
            Err(e) => r == Err::<Vec<response::ParentPermission>, AuthError>(e),
            Ok(_) => match answers(
                store@.parent_permissions.filter(parent_permission_service::selects(store@, props)),
                parent_permission_filler(store@),
            ) {
                Err(e) => r == Err::<Vec<response::ParentPermission>, AuthError>(e),
                Ok(a) => r matches Ok(v) && v@ == a,
            },
        },
{
    match get_api_key_if_valid_noverify(store, now, props.api_key.as_str()) {
        Ok(_) => {},
        Err(e) => {
            return Err(e);
        },
    }
    let rows = parent_permission_service::query(store, &props);
    let ghost f = parent_permission_filler(store@);
    let mut out: Vec<response::ParentPermission> = Vec::new();
    let mut i: usize = 0;
    while i < rows.len()
        invariant
            i <= rows@.len(),
            f == parent_permission_filler(store@),
            rows@ == store@.parent_permissions.filter(
                parent_permission_service::selects(store@, props),
            ),
            valid_api_key(store@, now, hashed(props.api_key@)) is Ok,
            answers(rows@.take(i as int), f) == Ok::<Seq<response::ParentPermission>, AuthError>(
                out@,
            ),
        decreases rows@.len() - i,
    {
        proof {
            lemma_answers_step(rows@, f, i as int);
        }
        match fill_parent_permission(store, rows[i].clone()) {
            Ok(a) => {
                out.push(a);
            },
            Err(e) => {
                proof {
                    lemma_answers_err(rows@, f, i + 1);
                }
                return Err(e);
            },
        }
        i += 1;
    }
    assert(rows@.take(rows@.len() as int) == rows@);
    Ok(out)
}

/// The passwords that a query selects, each with the password reset that
/// produced it, if one did. No answer holds a hash.
pub fn password_view(store: &Store, now: i64, props: PasswordViewProps) -> (r: Result<
    Vec<response::Password>,
    AuthError,
>)
    requires
        store.wf(),
    ensures
        match valid_api_key(store@, now, hashed(props.api_key@)) {
            Err(e) => r == Err::<Vec<response::Password>, AuthError>(e),
            Ok(_) => match answers(
                store@.passwords.filter(password_service::selects(store@.passwords, props)),
                password_filler(store@),
            ) {
                Err(e) => r == Err::<Vec<response::Password>, AuthError>(e),
                Ok(a) => r matches Ok(v) && v@ == a,
            },
        },
{
    match get_api_key_if_valid_noverify(store, now, props.api_key.as_str()) {
        Ok(_) => {},
        Err(e) => {
            return Err(e);
        },
    }
    let rows = password_service::query(store, &props);
    let ghost f = password_filler(store@);
    let mut out: Vec<response::Password> = Vec::new();
    let mut i: usize = 0;
    while i < rows.len()
        invariant
            i <= rows@.len(),
            f == password_filler(store@),
            rows@ == store@.passwords.filter(password_service::selects(store@.passwords, props)),
            valid_api_key(store@, now, hashed(props.api_key@)) is Ok,
            answers(rows@.take(i as int), f) == Ok::<Seq<response::Password>, AuthError>(out@),
        decreases rows@.len() - i,
    {
        proof {
            lemma_answers_step(rows@, f, i as int);
        }
        match fill_password(store, rows[i].clone()) {
            Ok(a) => {
                out.push(a);
            },
            Err(e) => {
                proof {
                    lemma_answers_err(rows@, f, i + 1);
                }
                return Err(e);
            },
        }
        i += 1;
    }
    assert(rows@.take(rows@.len() as int) == rows@);
    Ok(out)
}

/// The projection of verification challenges.
pub open spec fn verification_challenge_filler() -> spec_fn(
    VerificationChallenge,
) -> response::VerificationChallenge {
    |c: VerificationChallenge| filled_verification_challenge(c)
}

/// The challenges that a query selects, by ascending hash. No answer holds
/// a hash.
pub fn verification_challenge_view(
    store: &Store,
    now: i64,
    props: VerificationChallengeViewProps,
) -> (r: Result<Vec<response::VerificationChallenge>, AuthError>)
    requires
        store.wf(),
    ensures
        match valid_api_key(store@, now, hashed(props.api_key@)) {
            Err(e) => r == Err::<Vec<response::VerificationChallenge>, AuthError>(e),
            Ok(_) => r matches Ok(v) && exists|rows: Seq<VerificationChallenge>| #[trigger]
                verification_challenge_service::is_listing(
                    store@.verification_challenges,
                    props,
                    rows,
                ) && v@ == mapped(rows, verification_challenge_filler()),
        },
{
    match get_api_key_if_valid_noverify(store, now, props.api_key.as_str()) {
        Ok(_) => {},
        Err(e) => {
            return Err(e);
        },
    }
    let rows = verification_challenge_service::query(store, &props);
    let mut out: Vec<response::VerificationChallenge> = Vec::new();
    let mut i: usize = 0;
    while i < rows.len()
        invariant
            i <= rows@.len(),
            out@ == mapped(rows@.take(i as int), verification_challenge_filler()),
        decreases rows@.len() - i,
    {
        out.push(fill_verification_challenge(rows[i].clone()));
        i += 1;
        assert(out@ == mapped(rows@.take(i as int), verification_challenge_filler()));
    }
    assert(rows@.take(rows@.len() as int) == rows@);
    Ok(out)
}

} // verus!
