//! The table of passwords: the credential history of each user.
use crate::db_types::Password;
use crate::filter::{
    among, at_least, at_most, flag_is, is_among, is_at_least, is_at_most, is_flag,
    lemma_filter_step,
};
use crate::request::PasswordViewProps;
use crate::store::{latest, lemma_latest_found, lemma_latest_none, Store, StoreError, Tables};
use crate::utils::str_eq;
use vstd::prelude::*;

verus! {

/// The rows with the identifier `password_id`.
pub open spec fn with_id(password_id: i64) -> spec_fn(Password) -> bool {
    |p: Password| p.password_id == password_id
}

/// The rows that the password reset with the hash `hash` produced.
pub open spec fn with_reset_hash(hash: Seq<char>) -> spec_fn(Password) -> bool {
    |p: Password| p.password_reset_key_hash matches Some(h) && h@ == hash
}

/// The rows of the user `user_id`.
pub open spec fn of_user(user_id: i64) -> spec_fn(Password) -> bool {
    |p: Password| p.creator_user_id == user_id
}

/// Whether `p` is the row stored last for its user.
pub open spec fn is_current(t: Seq<Password>, p: Password) -> bool {
    latest(t, of_user(p.creator_user_id)) == Some(p)
}

/// Whether the query `props` selects the row `p`.
pub open spec fn selected(t: Seq<Password>, props: PasswordViewProps, p: Password) -> bool {
    &&& props.only_recent ==> is_current(t, p)
    &&& among(props.password_id, p.password_id)
    &&& at_least(props.min_creation_time, p.creation_time)
    &&& at_most(props.max_creation_time, p.creation_time)
    &&& among(props.creator_user_id, p.creator_user_id)
    &&& flag_is(props.from_reset, p.password_reset_key_hash is Some)
}

/// The rows that the query `props` selects.
pub open spec fn selects(t: Seq<Password>, props: PasswordViewProps) -> spec_fn(Password) -> bool {
    |p: Password| selected(t, props, p)
}

/// Stores a password under the next identifier.
pub fn add(
    store: &mut Store,
    now: i64,
    creator_user_id: i64,
    password_hash: String,
    password_reset_key_hash: Option<String>,
) -> (r: Result<Password, StoreError>)
    requires
        old(store).wf(),
    ensures
        final(store).wf(),
        match r {
            Ok(row) => {
                &&& old(store)@.passwords.len() < i64::MAX
                &&& row == (Password {
                    password_id: (old(store)@.passwords.len() + 1) as i64,
                    creation_time: now,
                    creator_user_id,
                    password_hash,
                    password_reset_key_hash,
                })
                &&& final(store)@ == (Tables {
                    passwords: old(store)@.passwords.push(row),
                    ..old(store)@
                })
            },
            Err(e) => {
                &&& e == StoreError::Full
                &&& old(store)@.passwords.len() >= i64::MAX
                &&& final(store)@ == old(store)@
            },
        },
{
    let n = store.passwords().len();
    if n as u64 >= i64::MAX as u64 {
        return Err(StoreError::Full);
    }
    let row = Password {
        password_id: (n as u64 + 1) as i64,
        creation_time: now,
        creator_user_id,
        password_hash,
        password_reset_key_hash,
    };
    store.push_password(row.clone());
    Ok(row)
}

/// The row stored last for the user `user_id`.
pub fn get_by_user_id(store: &Store, user_id: i64) -> (r: Option<Password>)
    ensures
        r == latest(store@.passwords, of_user(user_id)),
{
    let t = store.passwords();
    let mut i: usize = t.len();
    while i > 0
        invariant
            t@ == store@.passwords,
            i <= t@.len(),
            forall|j: int| i <= j < t@.len() ==> !of_user(user_id)(#[trigger] t@[j]),
        decreases i,
    {
        i -= 1;
        if t[i].creator_user_id == user_id {
            proof {
                assert(of_user(user_id)(t@[i as int]));
                lemma_latest_found(t@, of_user(user_id), i as int);
            }
            return Some(t[i].clone());
        }
    }
    proof {
        lemma_latest_none(t@, of_user(user_id));
    }
    None
}

/// The row with the identifier `password_id`.
pub fn get_by_password_id(store: &Store, password_id: i64) -> (r: Option<Password>)
    requires
        store.wf(),
    ensures
        r == latest(store@.passwords, with_id(password_id)),
{
    let t = store.passwords();
    if password_id >= 1 && password_id as u64 <= t.len() as u64 {
        let i = (password_id - 1) as usize;
        proof {
            assert(with_id(password_id)(t@[i as int]));
            lemma_latest_found(t@, with_id(password_id), i as int);
        }
        Some(t[i].clone())
    } else {
        proof {
            lemma_latest_none(t@, with_id(password_id));
        }
        None
    }
}

/// Whether some password came from the password reset with the hash
/// `password_reset_key_hash`.
pub fn exists_by_password_reset_key_hash(store: &Store, password_reset_key_hash: &str) -> (r: bool)
    ensures
        r == latest(store@.passwords, with_reset_hash(password_reset_key_hash@)).is_some(),
{
    let t = store.passwords();
    let ghost p = with_reset_hash(password_reset_key_hash@);
    let mut i: usize = t.len();
    while i > 0
        invariant
            t@ == store@.passwords,
            p == with_reset_hash(password_reset_key_hash@),
            i <= t@.len(),
            forall|j: int| i <= j < t@.len() ==> !p(#[trigger] t@[j]),
        decreases i,
    {
        i -= 1;
        let found = match &t[i].password_reset_key_hash {
            Some(h) => str_eq(h.as_str(), password_reset_key_hash),
            None => false,
        };
        if found {
            proof {
                assert(p(t@[i as int]));
                lemma_latest_found(t@, p, i as int);
            }
            return true;
        }
    }
    proof {
        lemma_latest_none(t@, p);
    }
    false
}

/// Whether the row at `i` is the one stored last for its user.
fn is_current_at(t: &Vec<Password>, i: usize) -> (r: bool)
    requires
        i < t@.len(),
        forall|j: int| 0 <= j < t@.len() ==> (#[trigger] t@[j]).password_id == j + 1,
    ensures
        r == is_current(t@, t@[i as int]),
{
    let ghost p = of_user(t@[i as int].creator_user_id);
    let mut j: usize = t.len() - 1;
    while j > i
        invariant
            i <= j < t@.len(),
            p == of_user(t@[i as int].creator_user_id),
            forall|k: int| 0 <= k < t@.len() ==> (#[trigger] t@[k]).password_id == k + 1,
            forall|k: int| j < k < t@.len() ==> !p(#[trigger] t@[k]),
        decreases j,
    {
        if t[j].creator_user_id == t[i].creator_user_id {
            proof {
                lemma_latest_found(t@, p, j as int);
            }
            return false;
        }
        j -= 1;
    }
    proof {
        lemma_latest_found(t@, p, i as int);
    }
    true
}

/// The rows that `props` selects, by ascending identifier.
pub fn query(store: &Store, props: &PasswordViewProps) -> (r: Vec<Password>)
    requires
        store.wf(),
    ensures
        r@ == store@.passwords.filter(selects(store@.passwords, *props)),
{
    let t = store.passwords();
    let mut out: Vec<Password> = Vec::new();
    let mut i: usize = 0;
    while i < t.len()
        invariant
            i <= t@.len(),
            forall|j: int| 0 <= j < t@.len() ==> (#[trigger] t@[j]).password_id == j + 1,
            out@ == t@.take(i as int).filter(selects(t@, *props)),
        decreases t@.len() - i,
    {
        let p = &t[i];
        let ok = is_among(&props.password_id, p.password_id) && is_at_least(
            &props.min_creation_time,
            p.creation_time,
        ) && is_at_most(&props.max_creation_time, p.creation_time) && is_among(
            &props.creator_user_id,
            p.creator_user_id,
        ) && is_flag(&props.from_reset, p.password_reset_key_hash.is_some()) && (
        !props.only_recent || is_current_at(t, i));
        proof {
            lemma_filter_step(t@, i as int, selects(t@, *props));
        }
        if ok {
            out.push(p.clone());
        }
        i += 1;
    }
    assert(t@.take(t@.len() as int) == t@);
    out
}

} // verus!
