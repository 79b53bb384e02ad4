//! The table of confirmed email addresses. The address of a row is the one
//! that its challenge was sent to.
use crate::db_types::{Email, VerificationChallenge};
use crate::filter::{
    among, among_strings, at_least, at_most, is_among, is_among_strings, is_at_least, is_at_most,
    lemma_filter_step,
};
use crate::request::EmailViewProps;
use crate::store::{latest, lemma_latest_found, lemma_latest_none, Store, StoreError, Tables};
use crate::utils::str_eq;
use crate::verification_challenge_service;
use vstd::prelude::*;

verus! {

/// The rows with the identifier `email_id`.
pub open spec fn with_id(email_id: i64) -> spec_fn(Email) -> bool {
    |e: Email| e.email_id == email_id
}

/// The rows that the challenge with the hash `hash` confirmed.
pub open spec fn with_hash(hash: Seq<char>) -> spec_fn(Email) -> bool {
    |e: Email| e.verification_challenge_key_hash@ == hash
}

/// The rows of the user `user_id`.
pub open spec fn of_user(user_id: i64) -> spec_fn(Email) -> bool {
    |e: Email| e.creator_user_id == user_id
}

/// Whether `e` is the row stored last for its user.
pub open spec fn is_current(t: Seq<Email>, e: Email) -> bool {
    latest(t, of_user(e.creator_user_id)) == Some(e)
}

/// The challenge that confirmed the row `e`.
pub open spec fn challenge_of(s: Tables, e: Email) -> Option<VerificationChallenge> {
    latest(
        s.verification_challenges,
        verification_challenge_service::with_hash(e.verification_challenge_key_hash@),
    )
}

/// Whether `e` is the current row of its user and confirms the address
/// `email`.
pub open spec fn is_current_for_address(s: Tables, email: Seq<char>, e: Email) -> bool {
    &&& is_current(s.emails, e)
    &&& challenge_of(s, e) matches Some(c)
    &&& c.email@ == email
}

/// The current rows that confirm the address `email`.
pub open spec fn current_for_address(s: Tables, email: Seq<char>) -> spec_fn(Email) -> bool {
    |e: Email| is_current_for_address(s, email, e)
}

/// Whether the query `props` selects the row `e`. A row whose challenge is
/// not stored is never selected.
pub open spec fn selected(s: Tables, props: EmailViewProps, e: Email) -> bool {
    &&& props.only_recent ==> is_current(s.emails, e)
    &&& among(props.email_id, e.email_id)
    &&& at_least(props.min_creation_time, e.creation_time)
    &&& at_most(props.max_creation_time, e.creation_time)
    &&& among(props.creator_user_id, e.creator_user_id)
    &&& challenge_of(s, e) matches Some(c)
    &&& among_strings(props.email, c.email@)
}

/// The rows that the query `props` selects.
pub open spec fn selects(s: Tables, props: EmailViewProps) -> spec_fn(Email) -> bool {
    |e: Email| selected(s, props, e)
}

/// Stores an email row under the next identifier.
pub fn add(
    store: &mut Store,
    now: i64,
    creator_user_id: i64,
    verification_challenge_key_hash: String,
) -> (r: Result<Email, StoreError>)
    requires
        old(store).wf(),
    ensures
        final(store).wf(),
        match r {
            Ok(row) => {
                &&& old(store)@.emails.len() < i64::MAX
                &&& row == (Email {
                    email_id: (old(store)@.emails.len() + 1) as i64,
                    creation_time: now,
                    creator_user_id,
                    verification_challenge_key_hash,
                })
                &&& final(store)@ == (Tables { emails: old(store)@.emails.push(row), ..old(store)@ })
            },
            Err(e) => {
                &&& e == StoreError::Full
                &&& old(store)@.emails.len() >= i64::MAX
                &&& final(store)@ == old(store)@
            },
        },
{
    let n = store.emails().len();
    if n as u64 >= i64::MAX as u64 {
        return Err(StoreError::Full);
    }
    let row = Email {
        email_id: (n as u64 + 1) as i64,
        creation_time: now,
        creator_user_id,
        verification_challenge_key_hash,
    };
    store.push_email(row.clone());
    Ok(row)
}

/// The row with the identifier `email_id`.
pub fn get_by_email_id(store: &Store, email_id: i64) -> (r: Option<Email>)
    requires
        store.wf(),
    ensures
        r == latest(store@.emails, with_id(email_id)),
{
    let t = store.emails();
    if email_id >= 1 && email_id as u64 <= t.len() as u64 {
        let i = (email_id - 1) as usize;
        proof {
            assert(with_id(email_id)(t@[i as int]));
            lemma_latest_found(t@, with_id(email_id), i as int);
        }
        Some(t[i].clone())
    } else {
        proof {
            lemma_latest_none(t@, with_id(email_id));
        }
        None
    }
}

/// The row stored last for the challenge with the hash
/// `verification_challenge_key_hash`.
pub fn get_by_verification_challenge_key_hash(
    store: &Store,
    verification_challenge_key_hash: &str,
) -> (r: Option<Email>)
    ensures
        r == latest(store@.emails, with_hash(verification_challenge_key_hash@)),
{
    let t = store.emails();
    let ghost p = with_hash(verification_challenge_key_hash@);
    let mut i: usize = t.len();
    while i > 0
        invariant
            t@ == store@.emails,
            p == with_hash(verification_challenge_key_hash@),
            i <= t@.len(),
            forall|j: int| i <= j < t@.len() ==> !p(#[trigger] t@[j]),
        decreases i,
    {
        i -= 1;
        if str_eq(t[i].verification_challenge_key_hash.as_str(), verification_challenge_key_hash) {
            proof {
                assert(p(t@[i as int]));
                lemma_latest_found(t@, p, i as int);
            }
            return Some(t[i].clone());
        }
    }
    proof {
        lemma_latest_none(t@, p);
    }
    None
}

/// Whether the row at `i` confirms the address `email`.
fn has_address_at(store: &Store, i: usize, email: &str) -> (r: bool)
    requires
        i < store@.emails.len(),
    ensures
        r == (challenge_of(store@, store@.emails[i as int]) matches Some(c) && c.email@ == email@),
{
    let t = store.emails();
    match verification_challenge_service::get_by_verification_challenge_key_hash(
        store,
        t[i].verification_challenge_key_hash.as_str(),
    ) {
        Some(c) => str_eq(c.email.as_str(), email),
        None => false,
    }
}

/// The row stored last among the current rows that confirm the address
/// `email`.
pub fn get_by_email(store: &Store, email: &str) -> (r: Option<Email>)
    requires
        store.wf(),
    ensures
        r == latest(store@.emails, current_for_address(store@, email@)),
{
    let t = store.emails();
    let ghost p = current_for_address(store@, email@);
    let mut i: usize = t.len();
    while i > 0
        invariant
            store.wf(),
            t@ == store@.emails,
            p == current_for_address(store@, email@),
            i <= t@.len(),
            forall|j: int| i <= j < t@.len() ==> !p(#[trigger] t@[j]),
        decreases i,
    {
        i -= 1;
        if is_current_at(t, i) && has_address_at(store, i, email) {
            proof {
                assert(p(t@[i as int]));
                lemma_latest_found(t@, p, i as int);
            }
            return Some(t[i].clone());
        }
    }
    proof {
        lemma_latest_none(t@, p);
    }
    None
}

/// The row stored last for the user `user_id`.
pub fn get_by_user_id(store: &Store, user_id: i64) -> (r: Option<Email>)
    ensures
        r == latest(store@.emails, of_user(user_id)),
{
    let t = store.emails();
    let mut i: usize = t.len();
    while i > 0
        invariant
            t@ == store@.emails,
            i <= t@.len(),
            forall|j: int| i <= j < t@.len() ==> !of_user(user_id)(#[trigger] t@[j]),
        decreases i,
    {
        i -= 1;
        if t[i].creator_user_id == user_id {
            proof {
                assert(of_user(user_id)(t@[i as int]));
                lemma_latest_found(t@, of_user(user_id), i as int);
            }
            return Some(t[i].clone());
        }
    }
    proof {
        lemma_latest_none(t@, of_user(user_id));
    }
    None
}

/// Whether the row at `i` is the one stored last for its user.
fn is_current_at(t: &Vec<Email>, i: usize) -> (r: bool)
    requires
        i < t@.len(),
        forall|j: int| 0 <= j < t@.len() ==> (#[trigger] t@[j]).email_id == j + 1,
    ensures
        r == is_current(t@, t@[i as int]),
{
    let ghost p = of_user(t@[i as int].creator_user_id);
    let mut j: usize = t.len() - 1;
    while j > i
        invariant
            i <= j < t@.len(),
            p == of_user(t@[i as int].creator_user_id),
            forall|k: int| 0 <= k < t@.len() ==> (#[trigger] t@[k]).email_id == k + 1,
            forall|k: int| j < k < t@.len() ==> !p(#[trigger] t@[k]),
        decreases j,
    {
        if t[j].creator_user_id == t[i].creator_user_id {
            proof {
                lemma_latest_found(t@, p, j as int);
            }
            return false;
        }
        j -= 1;
    }
    proof {
        lemma_latest_found(t@, p, i as int);
    }
    true
}

/// Whether the row at `i` passes the filter of `props` on the address.
fn address_selected_at(store: &Store, i: usize, props: &EmailViewProps) -> (r: bool)
    requires
        i < store@.emails.len(),
    ensures
        r == (challenge_of(store@, store@.emails[i as int]) matches Some(c) && among_strings(
            props.email,
            c.email@,
        )),
{
    let t = store.emails();
    match verification_challenge_service::get_by_verification_challenge_key_hash(
        store,
        t[i].verification_challenge_key_hash.as_str(),
    ) {
        Some(c) => is_among_strings(&props.email, c.email.as_str()),
        None => false,
    }
}

/// The rows that `props` selects, by ascending identifier.
pub fn query(store: &Store, props: &EmailViewProps) -> (r: Vec<Email>)
    requires
        store.wf(),
    ensures
        r@ == store@.emails.filter(selects(store@, *props)),
{
    let t = store.emails();
    let mut out: Vec<Email> = Vec::new();
    let mut i: usize = 0;
    while i < t.len()
        invariant
            i <= t@.len(),
            t@ == store@.emails,
            store.wf(),
            out@ == t@.take(i as int).filter(selects(store@, *props)),
        decreases t@.len() - i,
    {
        let e = &t[i];
        let ok = is_among(&props.email_id, e.email_id) && is_at_least(
            &props.min_creation_time,
            e.creation_time,
        ) && is_at_most(&props.max_creation_time, e.creation_time) && is_among(
            &props.creator_user_id,
            e.creator_user_id,
        ) && (!props.only_recent || is_current_at(t, i)) && address_selected_at(store, i, props);
        proof {
            lemma_filter_step(t@, i as int, selects(store@, *props));
        }
        if ok {
            out.push(e.clone());
        }
        i += 1;
    }
    assert(t@.take(t@.len() as int) == t@);
    out
}

} // verus!
