//! The table of API key rows.
use crate::db_types::{ApiKey, ApiKeyKind};
use crate::filter::{
    among, at_least, at_most, is_among, is_at_least, is_at_most, lemma_filter_step,
};
use crate::request::ApiKeyViewProps;
use crate::store::{latest, lemma_latest_found, lemma_latest_none, Store, StoreError, Tables};
use crate::utils::str_eq;
use vstd::prelude::*;

verus! {

/// The rows that carry the hash `hash`.
pub open spec fn with_hash(hash: Seq<char>) -> spec_fn(ApiKey) -> bool {
    |k: ApiKey| k.api_key_hash@ == hash
}

/// Whether `k` is the row stored last under its hash.
pub open spec fn is_current(t: Seq<ApiKey>, k: ApiKey) -> bool {
    latest(t, with_hash(k.api_key_hash@)) == Some(k)
}

/// Whether a kind passes a filter on the kind.
pub open spec fn kind_is(filter: Option<ApiKeyKind>, kind: ApiKeyKind) -> bool {
    filter matches Some(k) ==> k == kind
}

/// Whether the query `props` selects the row `k`.
pub open spec fn selected(t: Seq<ApiKey>, props: ApiKeyViewProps, k: ApiKey) -> bool {
    &&& props.only_recent ==> is_current(t, k)
    &&& among(props.api_key_id, k.api_key_id)
    &&& at_least(props.min_creation_time, k.creation_time)
    &&& at_most(props.max_creation_time, k.creation_time)
    &&& among(props.creator_user_id, k.creator_user_id)
    &&& at_least(props.min_duration, k.duration)
    &&& at_most(props.max_duration, k.duration)
    &&& kind_is(props.api_key_kind, k.api_key_kind)
}

/// The rows that the query `props` selects.
pub open spec fn selects(t: Seq<ApiKey>, props: ApiKeyViewProps) -> spec_fn(ApiKey) -> bool {
    |k: ApiKey| selected(t, props, k)
}

/// Stores an API key row under the next identifier.
pub fn add(
    store: &mut Store,
    now: i64,
    creator_user_id: i64,
    api_key_hash: String,
    api_key_kind: ApiKeyKind,
    duration: i64,
) -> (r: Result<ApiKey, StoreError>)
    requires
        old(store).wf(),
    ensures
        final(store).wf(),
        match r {
            Ok(row) => {
                &&& old(store)@.api_keys.len() < i64::MAX
                &&& row == (ApiKey {
                    api_key_id: (old(store)@.api_keys.len() + 1) as i64,
                    creation_time: now,
                    creator_user_id,
                    api_key_hash,
                    api_key_kind,
                    duration,
                })
                &&& final(store)@ == (Tables {
                    api_keys: old(store)@.api_keys.push(row),
                    ..old(store)@
                })
            },
            Err(e) => {
                &&& e == StoreError::Full
                &&& old(store)@.api_keys.len() >= i64::MAX
                &&& final(store)@ == old(store)@
            },
        },
{
    let n = store.api_keys().len();
    if n as u64 >= i64::MAX as u64 {
        return Err(StoreError::Full);
    }
    let row = ApiKey {
        api_key_id: (n as u64 + 1) as i64,
        creation_time: now,
        creator_user_id,
        api_key_hash,
        api_key_kind,
        duration,
    };
    store.push_api_key(row.clone());
    Ok(row)
}

/// The row stored last under `api_key_hash`.
pub fn get_by_api_key_hash(store: &Store, api_key_hash: &str) -> (r: Option<ApiKey>)
    ensures
        r == latest(store@.api_keys, with_hash(api_key_hash@)),
{
    let t = store.api_keys();
    let mut i: usize = t.len();
    while i > 0
        invariant
            t@ == store@.api_keys,
            i <= t@.len(),
            forall|j: int| i <= j < t@.len() ==> !with_hash(api_key_hash@)(#[trigger] t@[j]),
        decreases i,
    {
        i -= 1;
        if str_eq(t[i].api_key_hash.as_str(), api_key_hash) {
            let row = t[i].clone();
            proof {
                assert(row == t@[i as int]);
                assert(with_hash(api_key_hash@)(t@[i as int]));
                lemma_latest_found(t@, with_hash(api_key_hash@), i as int);
            }
            return Some(row);
        }
    }
    proof {
        lemma_latest_none(t@, with_hash(api_key_hash@));
    }
    None
}

/// Whether the row at `i` is the one stored last under its hash.
fn is_current_at(t: &Vec<ApiKey>, i: usize) -> (r: bool)
    requires
        i < t@.len(),
        forall|j: int| 0 <= j < t@.len() ==> (#[trigger] t@[j]).api_key_id == j + 1,
    ensures
        r == is_current(t@, t@[i as int]),
{
    let ghost p = with_hash(t@[i as int].api_key_hash@);
    let mut j: usize = t.len() - 1;
    while j > i
        invariant
            i <= j < t@.len(),
            p == with_hash(t@[i as int].api_key_hash@),
            forall|k: int| 0 <= k < t@.len() ==> (#[trigger] t@[k]).api_key_id == k + 1,
            forall|k: int| j < k < t@.len() ==> !p(#[trigger] t@[k]),
        decreases j,
    {
        if str_eq(t[j].api_key_hash.as_str(), t[i].api_key_hash.as_str()) {
            proof {
                lemma_latest_found(t@, p, j as int);
            }
            return false;
        }
        j -= 1;
    }
    proof {
        lemma_latest_found(t@, p, i as int);
    }
    true
}

/// The rows that `props` selects, by ascending identifier.
pub fn query(store: &Store, props: &ApiKeyViewProps) -> (r: Vec<ApiKey>)
    requires
        store.wf(),
    ensures
        r@ == store@.api_keys.filter(selects(store@.api_keys, *props)),
{
    let t = store.api_keys();
    let mut out: Vec<ApiKey> = Vec::new();
    let mut i: usize = 0;
    while i < t.len()
        invariant
            i <= t@.len(),
            forall|j: int| 0 <= j < t@.len() ==> (#[trigger] t@[j]).api_key_id == j + 1,
            out@ == t@.take(i as int).filter(selects(t@, *props)),
        decreases t@.len() - i,
    {
        let k = &t[i];
        let kind_ok = match props.api_key_kind {
            None => true,
            Some(kind) => kind == k.api_key_kind,
        };
        let ok = is_among(&props.api_key_id, k.api_key_id) && is_at_least(
            &props.min_creation_time,
            k.creation_time,
        ) && is_at_most(&props.max_creation_time, k.creation_time) && is_among(
            &props.creator_user_id,
            k.creator_user_id,
        ) && is_at_least(&props.min_duration, k.duration) && is_at_most(
            &props.max_duration,
            k.duration,
        ) && kind_ok && (!props.only_recent || is_current_at(t, i));
        proof {
            lemma_filter_step(t@, i as int, selects(t@, *props));
        }
        if ok {
            out.push(k.clone());
        }
        i += 1;
    }
    assert(t@.take(t@.len() as int) == t@);
    out
}

} // verus!
