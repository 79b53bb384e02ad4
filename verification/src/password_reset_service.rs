//! The table of password resets, keyed by the hash of the token.
use crate::db_types::PasswordReset;
use crate::store::{
    latest, lemma_absent, lemma_latest_found, lemma_latest_none, Store, StoreError, Tables,
};
use crate::utils::str_eq;
use vstd::prelude::*;

verus! {

/// The rows that carry the hash `hash`.
pub open spec fn with_hash(hash: Seq<char>) -> spec_fn(PasswordReset) -> bool {
    |p: PasswordReset| p.password_reset_key_hash@ == hash
}

/// Stores a password reset, unless one with the same hash is stored already.
pub fn add(store: &mut Store, now: i64, password_reset_key_hash: String, creator_user_id: i64) -> (r:
    Result<PasswordReset, StoreError>)
    requires
        old(store).wf(),
    ensures
        final(store).wf(),
        match r {
            Ok(row) => {
                &&& latest(old(store)@.password_resets, with_hash(password_reset_key_hash@)) is None
                &&& row == (PasswordReset {
                    password_reset_key_hash,
                    creation_time: now,
                    creator_user_id,
                })
                &&& final(store)@ == (Tables {
                    password_resets: old(store)@.password_resets.push(row),
                    ..old(store)@
                })
            },
            Err(e) => {
                &&& e == StoreError::Duplicate
                &&& latest(old(store)@.password_resets, with_hash(password_reset_key_hash@)) is Some
                &&& final(store)@ == old(store)@
            },
        },
{
    if get_by_password_reset_key_hash(store, password_reset_key_hash.as_str()).is_some() {
        return Err(StoreError::Duplicate);
    }
    let row = PasswordReset { password_reset_key_hash, creation_time: now, creator_user_id };
    proof {
        lemma_absent(store@.password_resets, with_hash(row.password_reset_key_hash@));
    }
    store.push_password_reset(row.clone());
    Ok(row)
}

/// The password reset stored under `password_reset_key_hash`.
pub fn get_by_password_reset_key_hash(store: &Store, password_reset_key_hash: &str) -> (r: Option<
    PasswordReset,
>)
    ensures
        r == latest(store@.password_resets, with_hash(password_reset_key_hash@)),
{
    let t = store.password_resets();
    let ghost p = with_hash(password_reset_key_hash@);
    let mut i: usize = t.len();
    while i > 0
        invariant
            t@ == store@.password_resets,
            p == with_hash(password_reset_key_hash@),
            i <= t@.len(),
            forall|j: int| i <= j < t@.len() ==> !p(#[trigger] t@[j]),
        decreases i,
    {
        i -= 1;
        if str_eq(t[i].password_reset_key_hash.as_str(), password_reset_key_hash) {
            proof {
                assert(p(t@[i as int]));
                lemma_latest_found(t@, p, i as int);
            }
            return Some(t[i].clone());
        }
    }
    proof {
        lemma_latest_none(t@, p);
    }
    None
}

} // verus!
