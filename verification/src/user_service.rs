//! The table of users.
use crate::db_types::User;
use crate::filter::{among, at_least, at_most, is_among, is_at_least, is_at_most, lemma_filter_step};
use crate::request::UserViewProps;
use crate::store::{latest, lemma_latest_found, lemma_latest_none, Store, StoreError, Tables};
use vstd::prelude::*;

verus! {

/// The rows with the identifier `user_id`.
pub open spec fn with_id(user_id: i64) -> spec_fn(User) -> bool {
    |u: User| u.user_id == user_id
}

/// Whether the query `props` selects the row `u`.
pub open spec fn selected(props: UserViewProps, u: User) -> bool {
    &&& among(props.user_id, u.user_id)
    &&& at_least(props.min_creation_time, u.creation_time)
    &&& at_most(props.max_creation_time, u.creation_time)
}

/// The rows that the query `props` selects.
pub open spec fn selects(props: UserViewProps) -> spec_fn(User) -> bool {
    |u: User| selected(props, u)
}

/// Stores a user under the next identifier.
pub fn add(store: &mut Store, now: i64) -> (r: Result<User, StoreError>)
    requires
        old(store).wf(),
    ensures
        final(store).wf(),
        match r {
            Ok(row) => {
                &&& old(store)@.users.len() < i64::MAX
                &&& row == (User {
                    user_id: (old(store)@.users.len() + 1) as i64,
                    creation_time: now,
                })
                &&& final(store)@ == (Tables { users: old(store)@.users.push(row), ..old(store)@ })
            },
            Err(e) => {
                &&& e == StoreError::Full
                &&& old(store)@.users.len() >= i64::MAX
                &&& final(store)@ == old(store)@
            },
        },
{
    let n = store.users().len();
    if n as u64 >= i64::MAX as u64 {
        return Err(StoreError::Full);
    }
    let row = User { user_id: (n as u64 + 1) as i64, creation_time: now };
    store.push_user(row.clone());
    Ok(row)
}

/// The user with the identifier `user_id`.
pub fn get_by_user_id(store: &Store, user_id: i64) -> (r: Option<User>)
    requires
        store.wf(),
    ensures
        r == latest(store@.users, with_id(user_id)),
{
    let t = store.users();
    if user_id >= 1 && user_id as u64 <= t.len() as u64 {
        let i = (user_id - 1) as usize;
        proof {
            assert(with_id(user_id)(t@[i as int]));
            lemma_latest_found(t@, with_id(user_id), i as int);
        }
        Some(t[i].clone())
    } else {
        proof {
            lemma_latest_none(t@, with_id(user_id));
        }
        None
    }
}

/// Whether a user with the identifier `user_id` is stored.
pub fn exists_by_user_id(store: &Store, user_id: i64) -> (r: bool)
    requires
        store.wf(),
    ensures
        r == latest(store@.users, with_id(user_id)).is_some(),
{
    get_by_user_id(store, user_id).is_some()
}

/// The rows that `props` selects, by ascending identifier.
pub fn query(store: &Store, props: &UserViewProps) -> (r: Vec<User>)
    ensures
        r@ == store@.users.filter(selects(*props)),
{
    let t = store.users();
    let mut out: Vec<User> = Vec::new();
    let mut i: usize = 0;
    while i < t.len()
        invariant
            i <= t@.len(),
            t@ == store@.users,
            out@ == t@.take(i as int).filter(selects(*props)),
        decreases t@.len() - i,
    {
        let u = &t[i];
        let ok = is_among(&props.user_id, u.user_id) && is_at_least(
            &props.min_creation_time,
            u.creation_time,
        ) && is_at_most(&props.max_creation_time, u.creation_time);
        proof {
            lemma_filter_step(t@, i as int, selects(*props));
        }
        if ok {
            out.push(u.clone());
        }
        i += 1;
    }
    assert(t@.take(t@.len() as int) == t@);
    out
}

} // verus!
