//! The table of user data rows.
use crate::db_types::UserData;
use crate::filter::{
    among, among_strings, at_least, at_most, is_among, is_among_strings, is_at_least, is_at_most,
    lemma_filter_step,
};
use crate::request::UserDataViewProps;
use crate::store::{latest, lemma_latest_found, lemma_latest_none, Store, StoreError, Tables};
use vstd::prelude::*;

verus! {

/// The rows with the identifier `user_data_id`.
pub open spec fn with_id(user_data_id: i64) -> spec_fn(UserData) -> bool {
    |d: UserData| d.user_data_id == user_data_id
}

/// The rows of the user `user_id`.
pub open spec fn of_user(user_id: i64) -> spec_fn(UserData) -> bool {
    |d: UserData| d.creator_user_id == user_id
}

/// Whether `d` is the row stored last for its user.
pub open spec fn is_current(t: Seq<UserData>, d: UserData) -> bool {
    latest(t, of_user(d.creator_user_id)) == Some(d)
}

/// Whether the query `props` selects the row `d`.
pub open spec fn selected(t: Seq<UserData>, props: UserDataViewProps, d: UserData) -> bool {
    &&& props.only_recent ==> is_current(t, d)
    &&& among(props.user_data_id, d.user_data_id)
    &&& at_least(props.min_creation_time, d.creation_time)
    &&& at_most(props.max_creation_time, d.creation_time)
    &&& among(props.creator_user_id, d.creator_user_id)
    &&& among_strings(props.name, d.name@)
}

/// The rows that the query `props` selects.
pub open spec fn selects(t: Seq<UserData>, props: UserDataViewProps) -> spec_fn(UserData) -> bool {
    |d: UserData| selected(t, props, d)
}

/// Stores a user data row under the next identifier.
pub fn add(store: &mut Store, now: i64, creator_user_id: i64, name: String) -> (r: Result<
    UserData,
    StoreError,
>)
    requires
        old(store).wf(),
    ensures
        final(store).wf(),
        match r {
            Ok(row) => {
                &&& old(store)@.user_data.len() < i64::MAX
                &&& row == (UserData {
                    user_data_id: (old(store)@.user_data.len() + 1) as i64,
                    creation_time: now,
                    creator_user_id,
                    name,
                })
                &&& final(store)@ == (Tables {
                    user_data: old(store)@.user_data.push(row),
                    ..old(store)@
                })
            },
            Err(e) => {
                &&& e == StoreError::Full
                &&& old(store)@.user_data.len() >= i64::MAX
                &&& final(store)@ == old(store)@
            },
        },
{
    let n = store.user_data().len();
    if n as u64 >= i64::MAX as u64 {
        return Err(StoreError::Full);
    }
    let row = UserData {
        user_data_id: (n as u64 + 1) as i64,
        creation_time: now,
        creator_user_id,
        name,
    };
    store.push_user_data(row.clone());
    Ok(row)
}

/// The row stored last for the user `user_id`.
pub fn get_by_user_id(store: &Store, user_id: i64) -> (r: Option<UserData>)
    ensures
        r == latest(store@.user_data, of_user(user_id)),
{
    let t = store.user_data();
    let mut i: usize = t.len();
    while i > 0
        invariant
            t@ == store@.user_data,
            i <= t@.len(),
            forall|j: int| i <= j < t@.len() ==> !of_user(user_id)(#[trigger] t@[j]),
        decreases i,
    {
        i -= 1;
        if t[i].creator_user_id == user_id {
            proof {
                assert(of_user(user_id)(t@[i as int]));
                lemma_latest_found(t@, of_user(user_id), i as int);
            }
            return Some(t[i].clone());
        }
    }
    proof {
        lemma_latest_none(t@, of_user(user_id));
    }
    None
}

/// The row with the identifier `user_data_id`.
pub fn get_by_user_data_id(store: &Store, user_data_id: i64) -> (r: Option<UserData>)
    requires
        store.wf(),
    ensures
        r == latest(store@.user_data, with_id(user_data_id)),
{
    let t = store.user_data();
    if user_data_id >= 1 && user_data_id as u64 <= t.len() as u64 {
        let i = (user_data_id - 1) as usize;
        proof {
            assert(with_id(user_data_id)(t@[i as int]));
            lemma_latest_found(t@, with_id(user_data_id), i as int);
        }
        Some(t[i].clone())
    } else {
        proof {
            lemma_latest_none(t@, with_id(user_data_id));
        }
        None
    }
}

/// Whether the row at `i` is the one stored last for its user.
fn is_current_at(t: &Vec<UserData>, i: usize) -> (r: bool)
    requires
        i < t@.len(),
        forall|j: int| 0 <= j < t@.len() ==> (#[trigger] t@[j]).user_data_id == j + 1,
    ensures
        r == is_current(t@, t@[i as int]),
{
    let ghost p = of_user(t@[i as int].creator_user_id);
    let mut j: usize = t.len() - 1;
    while j > i
        invariant
            i <= j < t@.len(),
            p == of_user(t@[i as int].creator_user_id),
            forall|k: int| 0 <= k < t@.len() ==> (#[trigger] t@[k]).user_data_id == k + 1,
            forall|k: int| j < k < t@.len() ==> !p(#[trigger] t@[k]),
        decreases j,
    {
        if t[j].creator_user_id == t[i].creator_user_id {
            proof {
                lemma_latest_found(t@, p, j as int);
            }
            return false;
        }
        j -= 1;
    }
    proof {
        lemma_latest_found(t@, p, i as int);
    }
    true
}

/// The rows that `props` selects, by ascending identifier.
pub fn query(store: &Store, props: &UserDataViewProps) -> (r: Vec<UserData>)
    requires
        store.wf(),
    ensures
        r@ == store@.user_data.filter(selects(store@.user_data, *props)),
{
    let t = store.user_data();
    let mut out: Vec<UserData> = Vec::new();
    let mut i: usize = 0;
    while i < t.len()
        invariant
            i <= t@.len(),
            forall|j: int| 0 <= j < t@.len() ==> (#[trigger] t@[j]).user_data_id == j + 1,
            out@ == t@.take(i as int).filter(selects(t@, *props)),
        decreases t@.len() - i,
    {
        let d = &t[i];
        let ok = is_among(&props.user_data_id, d.user_data_id) && is_at_least(
            &props.min_creation_time,
            d.creation_time,
        ) && is_at_most(&props.max_creation_time, d.creation_time) && is_among(
            &props.creator_user_id,
            d.creator_user_id,
        ) && is_among_strings(&props.name, d.name.as_str()) && (!props.only_recent
            || is_current_at(t, i));
        proof {
            lemma_filter_step(t@, i as int, selects(t@, *props));
        }
        if ok {
            out.push(d.clone());
        }
        i += 1;
    }
    assert(t@.take(t@.len() as int) == t@);
    out
}

} // verus!
