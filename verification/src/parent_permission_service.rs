//! The table of parent permissions.
use crate::db_types::{ParentPermission, VerificationChallenge};
use crate::filter::{
    among, at_least, at_most, flag_is, has_string, is_among, is_among_strings, is_at_least,
    is_at_most, is_flag, lemma_filter_step,
};
use crate::request::ParentPermissionViewProps;
use crate::store::{latest, lemma_latest_found, lemma_latest_none, Store, StoreError, Tables};
use crate::utils::str_eq;
use crate::verification_challenge_service;
use vstd::prelude::*;

verus! {

/// The rows with the identifier `parent_permission_id`.
pub open spec fn with_id(parent_permission_id: i64) -> spec_fn(ParentPermission) -> bool {
    |p: ParentPermission| p.parent_permission_id == parent_permission_id
}

/// The rows that the challenge with the hash `hash` authorized.
pub open spec fn with_hash(hash: Seq<char>) -> spec_fn(ParentPermission) -> bool {
    |p: ParentPermission| p.verification_challenge_key_hash matches Some(h) && h@ == hash
}

/// The rows of the user `user_id`.
pub open spec fn of_user(user_id: i64) -> spec_fn(ParentPermission) -> bool {
    |p: ParentPermission| p.user_id == user_id
}

/// Whether `p` is the row stored last for its user.
pub open spec fn is_current(t: Seq<ParentPermission>, p: ParentPermission) -> bool {
    latest(t, of_user(p.user_id)) == Some(p)
}

/// The challenge that authorized the row `p`, if one did.
pub open spec fn challenge_of(s: Tables, p: ParentPermission) -> Option<VerificationChallenge> {
    match p.verification_challenge_key_hash {
        Some(h) => latest(
            s.verification_challenges,
            verification_challenge_service::with_hash(h@),
        ),
        None => None,
    }
}

/// Whether `p` passes a filter on the parent's address: the address that the
/// challenge of `p` was sent to is among those asked for.
pub open spec fn parent_among(s: Tables, set: Option<Vec<String>>, p: ParentPermission) -> bool {
    set matches Some(v) ==> (challenge_of(s, p) matches Some(c) && has_string(v@, c.email@))
}

/// Whether the query `props` selects the row `p`.
pub open spec fn selected(s: Tables, props: ParentPermissionViewProps, p: ParentPermission) -> bool {
    &&& props.only_recent ==> is_current(s.parent_permissions, p)
    &&& among(props.parent_permission_id, p.parent_permission_id)
    &&& at_least(props.min_creation_time, p.creation_time)
    &&& at_most(props.max_creation_time, p.creation_time)
    &&& among(props.user_id, p.user_id)
    &&& flag_is(props.from_challenge, p.verification_challenge_key_hash is Some)
    &&& parent_among(s, props.parent_email, p)
}

/// The rows that the query `props` selects.
pub open spec fn selects(s: Tables, props: ParentPermissionViewProps) -> spec_fn(
    ParentPermission,
) -> bool {
    |p: ParentPermission| selected(s, props, p)
}

/// Stores a parent permission under the next identifier.
pub fn add(
    store: &mut Store,
    now: i64,
    user_id: i64,
    verification_challenge_key_hash: Option<String>,
) -> (r: Result<ParentPermission, StoreError>)
    requires
        old(store).wf(),
    ensures
        final(store).wf(),
        match r {
            Ok(row) => {
                &&& old(store)@.parent_permissions.len() < i64::MAX
                &&& row == (ParentPermission {
                    parent_permission_id: (old(store)@.parent_permissions.len() + 1) as i64,
                    creation_time: now,
                    user_id,
                    verification_challenge_key_hash,
                })
                &&& final(store)@ == (Tables {
                    parent_permissions: old(store)@.parent_permissions.push(row),
                    ..old(store)@
                })
            },
            Err(e) => {
                &&& e == StoreError::Full
                &&& old(store)@.parent_permissions.len() >= i64::MAX
                &&& final(store)@ == old(store)@
            },
        },
{
    let n = store.parent_permissions().len();
    if n as u64 >= i64::MAX as u64 {
        return Err(StoreError::Full);
    }
    let row = ParentPermission {
        parent_permission_id: (n as u64 + 1) as i64,
        creation_time: now,
        user_id,
        verification_challenge_key_hash,
    };
    store.push_parent_permission(row.clone());
    Ok(row)
}

/// The row with the identifier `parent_permission_id`.
pub fn get_by_parent_permission_id(store: &Store, parent_permission_id: i64) -> (r: Option<
    ParentPermission,
>)
    requires
        store.wf(),
    ensures
        r == latest(store@.parent_permissions, with_id(parent_permission_id)),
{
    let t = store.parent_permissions();
    if parent_permission_id >= 1 && parent_permission_id as u64 <= t.len() as u64 {
        let i = (parent_permission_id - 1) as usize;
        proof {
            assert(with_id(parent_permission_id)(t@[i as int]));
            lemma_latest_found(t@, with_id(parent_permission_id), i as int);
        }
        Some(t[i].clone())
    } else {
        proof {
            lemma_latest_none(t@, with_id(parent_permission_id));
        }
        None
    }
}

/// The row stored last for the challenge with the hash
/// `verification_challenge_key_hash`.
pub fn get_by_verification_challenge_key_hash(
    store: &Store,
    verification_challenge_key_hash: &str,
) -> (r: Option<ParentPermission>)
    ensures
        r == latest(store@.parent_permissions, with_hash(verification_challenge_key_hash@)),
{
    let t = store.parent_permissions();
    let ghost p = with_hash(verification_challenge_key_hash@);
    let mut i: usize = t.len();
    while i > 0
        invariant
            t@ == store@.parent_permissions,
            p == with_hash(verification_challenge_key_hash@),
            i <= t@.len(),
            forall|j: int| i <= j < t@.len() ==> !p(#[trigger] t@[j]),
        decreases i,
    {
        i -= 1;
        let found = match &t[i].verification_challenge_key_hash {
            Some(h) => str_eq(h.as_str(), verification_challenge_key_hash),
            None => false,
        };
        if found {
            proof {
                assert(p(t@[i as int]));
                lemma_latest_found(t@, p, i as int);
            }
            return Some(t[i].clone());
        }
    }
    proof {
        lemma_latest_none(t@, p);
    }
    None
}

/// The row stored last for the user `user_id`.
pub fn get_by_user_id(store: &Store, user_id: i64) -> (r: Option<ParentPermission>)
    ensures
        r == latest(store@.parent_permissions, of_user(user_id)),
{
    let t = store.parent_permissions();
    let mut i: usize = t.len();
    while i > 0
        invariant
            t@ == store@.parent_permissions,
            i <= t@.len(),
            forall|j: int| i <= j < t@.len() ==> !of_user(user_id)(#[trigger] t@[j]),
        decreases i,
    {
        i -= 1;
        if t[i].user_id == user_id {
            proof {
                assert(of_user(user_id)(t@[i as int]));
                lemma_latest_found(t@, of_user(user_id), i as int);
            }
            return Some(t[i].clone());
        }
    }
    proof {
        lemma_latest_none(t@, of_user(user_id));
    }
    None
}

/// Whether the row at `i` is the one stored last for its user.
fn is_current_at(t: &Vec<ParentPermission>, i: usize) -> (r: bool)
    requires
        i < t@.len(),
        forall|j: int| 0 <= j < t@.len() ==> (#[trigger] t@[j]).parent_permission_id == j + 1,
    ensures
        r == is_current(t@, t@[i as int]),
{
    let ghost p = of_user(t@[i as int].user_id);
    let mut j: usize = t.len() - 1;
    while j > i
        invariant
            i <= j < t@.len(),
            p == of_user(t@[i as int].user_id),
            forall|k: int| 0 <= k < t@.len() ==> (#[trigger] t@[k]).parent_permission_id == k + 1,
            forall|k: int| j < k < t@.len() ==> !p(#[trigger] t@[k]),
        decreases j,
    {
        if t[j].user_id == t[i].user_id {
            proof {
                lemma_latest_found(t@, p, j as int);
            }
            return false;
        }
        j -= 1;
    }
    proof {
        lemma_latest_found(t@, p, i as int);
    }
    true
}

/// Whether the row at `i` passes the filter of `props` on the parent's
/// address.
fn parent_selected_at(store: &Store, i: usize, props: &ParentPermissionViewProps) -> (r: bool)
    requires
        i < store@.parent_permissions.len(),
    ensures
        r == parent_among(store@, props.parent_email, store@.parent_permissions[i as int]),
{
    if props.parent_email.is_none() {
        return true;
    }
    let t = store.parent_permissions();
    match &t[i].verification_challenge_key_hash {
        Some(h) => {
            match verification_challenge_service::get_by_verification_challenge_key_hash(
                store,
                h.as_str(),
            ) {
                Some(c) => is_among_strings(&props.parent_email, c.email.as_str()),
                None => false,
            }
        },
        None => false,
    }
}

/// The rows that `props` selects, by ascending identifier.
pub fn query(store: &Store, props: &ParentPermissionViewProps) -> (r: Vec<ParentPermission>)
    requires
        store.wf(),
    ensures
        r@ == store@.parent_permissions.filter(selects(store@, *props)),
{
    let t = store.parent_permissions();
    let mut out: Vec<ParentPermission> = Vec::new();
    let mut i: usize = 0;
    while i < t.len()
        invariant
            i <= t@.len(),
            t@ == store@.parent_permissions,
            store.wf(),
            out@ == t@.take(i as int).filter(selects(store@, *props)),
        decreases t@.len() - i,
    {
        let p = &t[i];
        let ok = is_among(&props.parent_permission_id, p.parent_permission_id) && is_at_least(
            &props.min_creation_time,
            p.creation_time,
        ) && is_at_most(&props.max_creation_time, p.creation_time) && is_among(
            &props.user_id,
            p.user_id,
        ) && is_flag(&props.from_challenge, p.verification_challenge_key_hash.is_some()) && (
        !props.only_recent || is_current_at(t, i)) && parent_selected_at(store, i, props);
        proof {
            lemma_filter_step(t@, i as int, selects(store@, *props));
        }
        if ok {
            out.push(p.clone());
        }
        i += 1;
    }
    assert(t@.take(t@.len() as int) == t@);
    out
}

} // verus!
