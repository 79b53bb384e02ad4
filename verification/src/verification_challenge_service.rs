//! The table of verification challenges, keyed by the hash of the token.
use crate::db_types::VerificationChallenge;
use crate::filter::{
    among, among_strings, at_least, at_most, flag_is, is_among, is_among_strings, is_at_least,
    is_at_most, is_flag,
};
use crate::order::{
    comes_before, is_before, lemma_comes_before_total, lemma_comes_before_transitive,
    lemma_precedes_asymmetric,
};
use vstd::utf8::encode_utf8;
use crate::request::VerificationChallengeViewProps;
use crate::store::{
    latest, lemma_absent, lemma_latest_found, lemma_latest_none, Store, StoreError, Tables,
};
use crate::utils::str_eq;
use vstd::prelude::*;

verus! {

/// The rows that carry the hash `hash`.
pub open spec fn with_hash(hash: Seq<char>) -> spec_fn(VerificationChallenge) -> bool {
    |c: VerificationChallenge| c.verification_challenge_key_hash@ == hash
}

/// The rows that the user `user_id` created.
pub open spec fn of_creator(user_id: i64) -> spec_fn(VerificationChallenge) -> bool {
    |c: VerificationChallenge| c.creator_user_id == user_id
}

/// The rows that were sent to the address `email`.
pub open spec fn to_address(email: Seq<char>) -> spec_fn(VerificationChallenge) -> bool {
    |c: VerificationChallenge| c.email@ == email
}

/// The greatest creation time among the rows of `t` that satisfy `p`.
pub open spec fn latest_time(
    t: Seq<VerificationChallenge>,
    p: spec_fn(VerificationChallenge) -> bool,
) -> Option<i64>
    decreases t.len(),
{
    if t.len() == 0 {
        None
    } else {
        let rest = latest_time(t.drop_last(), p);
        if p(t.last()) {
            match rest {
                Some(m) => if m >= t.last().creation_time {
                    Some(m)
                } else {
                    Some(t.last().creation_time)
                },
                None => Some(t.last().creation_time),
            }
        } else {
            rest
        }
    }
}

/// Stores a challenge, unless one with the same hash is stored already.
pub fn add(
    store: &mut Store,
    now: i64,
    verification_challenge_key_hash: String,
    email: String,
    creator_user_id: i64,
    to_parent: bool,
) -> (r: Result<VerificationChallenge, StoreError>)
    requires
        old(store).wf(),
    ensures
        final(store).wf(),
        match r {
            Ok(row) => {
                &&& latest(
                    old(store)@.verification_challenges,
                    with_hash(verification_challenge_key_hash@),
                ) is None
                &&& row == (VerificationChallenge {
                    verification_challenge_key_hash,
                    creation_time: now,
                    creator_user_id,
                    to_parent,
                    email,
                })
                &&& final(store)@ == (Tables {
                    verification_challenges: old(store)@.verification_challenges.push(row),
                    ..old(store)@
                })
            },
            Err(e) => {
                &&& e == StoreError::Duplicate
                &&& latest(
                    old(store)@.verification_challenges,
                    with_hash(verification_challenge_key_hash@),
                ) is Some
                &&& final(store)@ == old(store)@
            },
        },
{
    if get_by_verification_challenge_key_hash(store, verification_challenge_key_hash.as_str())
        .is_some() {
        return Err(StoreError::Duplicate);
    }
    let row = VerificationChallenge {
        verification_challenge_key_hash,
        creation_time: now,
        creator_user_id,
        to_parent,
        email,
    };
    proof {
        lemma_absent(
            store@.verification_challenges,
            with_hash(row.verification_challenge_key_hash@),
        );
    }
    store.push_verification_challenge(row.clone());
    Ok(row)
}

/// The challenge stored under `verification_challenge_key_hash`.
pub fn get_by_verification_challenge_key_hash(
    store: &Store,
    verification_challenge_key_hash: &str,
) -> (r: Option<VerificationChallenge>)
    ensures
        r == latest(
            store@.verification_challenges,
            with_hash(verification_challenge_key_hash@),
        ),
{
    let t = store.verification_challenges();
    let ghost p = with_hash(verification_challenge_key_hash@);
    let mut i: usize = t.len();
    while i > 0
        invariant
            t@ == store@.verification_challenges,
            p == with_hash(verification_challenge_key_hash@),
            i <= t@.len(),
            forall|j: int| i <= j < t@.len() ==> !p(#[trigger] t@[j]),
        decreases i,
    {
        i -= 1;
        if str_eq(t[i].verification_challenge_key_hash.as_str(), verification_challenge_key_hash) {
            proof {
                assert(p(t@[i as int]));
                lemma_latest_found(t@, p, i as int);
            }
            return Some(t[i].clone());
        }
    }
    proof {
        lemma_latest_none(t@, p);
    }
    None
}

/// The time at which the latest challenge was sent to the address `email`.
pub fn get_latest_email_time_for_address(store: &Store, email: &str) -> (r: Option<i64>)
    ensures
        r == latest_time(store@.verification_challenges, to_address(email@)),
{
    let t = store.verification_challenges();
    let ghost p = to_address(email@);
    let mut best: Option<i64> = None;
    let mut i: usize = 0;
    while i < t.len()
        invariant
            i <= t@.len(),
            p == to_address(email@),
            best == latest_time(t@.take(i as int), p),
        decreases t@.len() - i,
    {
        proof {
            assert(t@.take(i + 1).drop_last() == t@.take(i as int));
        }
        if str_eq(t[i].email.as_str(), email) {
            best = match best {
                Some(m) => if m >= t[i].creation_time {
                    Some(m)
                } else {
                    Some(t[i].creation_time)
                },
                None => Some(t[i].creation_time),
            };
        }
        i += 1;
    }
    assert(t@.take(t@.len() as int) == t@);
    best
}

/// The time at which the user `creator_user_id` created their latest
/// challenge.
pub fn get_latest_time_for_creator(store: &Store, creator_user_id: i64) -> (r: Option<i64>)
    ensures
        r == latest_time(store@.verification_challenges, of_creator(creator_user_id)),
{
    let t = store.verification_challenges();
    let ghost p = of_creator(creator_user_id);
    let mut best: Option<i64> = None;
    let mut i: usize = 0;
    while i < t.len()
        invariant
            i <= t@.len(),
            p == of_creator(creator_user_id),
            best == latest_time(t@.take(i as int), p),
        decreases t@.len() - i,
    {
        proof {
            assert(t@.take(i + 1).drop_last() == t@.take(i as int));
        }
        if t[i].creator_user_id == creator_user_id {
            best = match best {
                Some(m) => if m >= t[i].creation_time {
                    Some(m)
                } else {
                    Some(t[i].creation_time)
                },
                None => Some(t[i].creation_time),
            };
        }
        i += 1;
    }
    assert(t@.take(t@.len() as int) == t@);
    best
}

/// Whether the query `props` selects the row `c`.
pub open spec fn selected(props: VerificationChallengeViewProps, c: VerificationChallenge) -> bool {
    &&& at_least(props.min_creation_time, c.creation_time)
    &&& at_most(props.max_creation_time, c.creation_time)
    &&& among(props.creator_user_id, c.creator_user_id)
    &&& flag_is(props.to_parent, c.to_parent)
    &&& among_strings(props.email, c.email@)
}

/// Whether each row of `rows` comes before the rows after it, by hash.
pub open spec fn ascending(rows: Seq<VerificationChallenge>) -> bool {
    forall|i: int, j: int|
        0 <= i < j < rows.len() ==> comes_before(
            (#[trigger] rows[i]).verification_challenge_key_hash@,
            (#[trigger] rows[j]).verification_challenge_key_hash@,
        )
}

/// Whether `rows` lists the rows of `t` that `props` selects, by ascending
/// hash.
pub open spec fn is_listing(
    t: Seq<VerificationChallenge>,
    props: VerificationChallengeViewProps,
    rows: Seq<VerificationChallenge>,
) -> bool {
    &&& ascending(rows)
    &&& forall|c: VerificationChallenge| #[trigger]
        rows.contains(c) <==> t.contains(c) && selected(props, c)
}

/// Puts `row` into the ascending `out` at its place.
fn insert_ascending(out: &mut Vec<VerificationChallenge>, row: VerificationChallenge)
    requires
        ascending(old(out)@),
        forall|k: int|
            0 <= k < old(out)@.len() ==> (#[trigger] old(out)@[k]).verification_challenge_key_hash@
                != row.verification_challenge_key_hash@,
    ensures
        ascending(final(out)@),
        forall|c: VerificationChallenge| #[trigger]
            final(out)@.contains(c) <==> old(out)@.contains(c) || c == row,
{
    let ghost h = row.verification_challenge_key_hash@;
    let mut p: usize = 0;
    while p < out.len() && is_before(
        out[p].verification_challenge_key_hash.as_str(),
        row.verification_challenge_key_hash.as_str(),
    )
        invariant
            out@ == old(out)@,
            h == row.verification_challenge_key_hash@,
            p <= out@.len(),
            forall|k: int|
                0 <= k < p ==> comes_before(
                    (#[trigger] out@[k]).verification_challenge_key_hash@,
                    h,
                ),
        decreases out@.len() - p,
    {
        p += 1;
    }
    let ghost before = out@;
    proof {
        assert forall|k: int| p <= k < before.len() implies comes_before(
            h,
            (#[trigger] before[k]).verification_challenge_key_hash@,
        ) by {
            let at = before[p as int].verification_challenge_key_hash@;
            lemma_comes_before_total(at, h);
            if k > p {
                lemma_comes_before_transitive(h, at, before[k].verification_challenge_key_hash@);
            }
        }
    }
    out.insert(p, row);
    proof {
        let after = out@;
        assert(after == before.insert(p as int, row));
        assert forall|i: int, j: int| 0 <= i < j < after.len() implies comes_before(
            (#[trigger] after[i]).verification_challenge_key_hash@,
            (#[trigger] after[j]).verification_challenge_key_hash@,
        ) by {
            if i < p && j > p {
                assert(after[i] == before[i]);
                assert(after[j] == before[j - 1]);
                if j - 1 >= p && i < j - 1 {
                }
            } else if i < p && j < p {
                assert(after[i] == before[i]);
                assert(after[j] == before[j]);
            } else if i < p && j == p {
                assert(after[i] == before[i]);
            } else if i == p {
                assert(after[j] == before[j - 1]);
            } else {
                assert(after[i] == before[i - 1]);
                assert(after[j] == before[j - 1]);
            }
        }
        assert forall|c: VerificationChallenge| #[trigger]
            after.contains(c) <==> before.contains(c) || c == row by {
            if after.contains(c) {
                let k = choose|k: int| 0 <= k < after.len() && after[k] == c;
                if k < p {
                    assert(before[k] == c);
                } else if k > p {
                    assert(before[k - 1] == c);
                }
            }
            if before.contains(c) {
                let k = choose|k: int| 0 <= k < before.len() && before[k] == c;
                if k < p {
                    assert(after[k] == c);
                } else {
                    assert(after[k + 1] == c);
                }
            }
            if c == row {
                assert(after[p as int] == c);
            }
        }
    }
}

/// The rows that `props` selects, by ascending hash.
pub fn query(store: &Store, props: &VerificationChallengeViewProps) -> (r: Vec<
    VerificationChallenge,
>)
    requires
        store.wf(),
    ensures
        is_listing(store@.verification_challenges, *props, r@),
{
    let t = store.verification_challenges();
    let mut out: Vec<VerificationChallenge> = Vec::new();
    let mut i: usize = 0;
    while i < t.len()
        invariant
            i <= t@.len(),
            t@ == store@.verification_challenges,
            store.wf(),
            ascending(out@),
            forall|c: VerificationChallenge| #[trigger]
                out@.contains(c) <==> exists|j: int|
                    0 <= j < i && #[trigger] t@[j] == c && selected(*props, c),
        decreases t@.len() - i,
    {
        let c = &t[i];
        let ok = is_at_least(&props.min_creation_time, c.creation_time) && is_at_most(
            &props.max_creation_time,
            c.creation_time,
        ) && is_among(&props.creator_user_id, c.creator_user_id) && is_flag(
            &props.to_parent,
            c.to_parent,
        ) && is_among_strings(&props.email, c.email.as_str());
        let ghost before = out@;
        if ok {
            proof {
                assert forall|k: int| 0 <= k < out@.len() implies (
                #[trigger] out@[k]).verification_challenge_key_hash@
                    != c.verification_challenge_key_hash@ by {
                    assert(out@.contains(out@[k]));
                    let j = choose|j: int|
                        0 <= j < i && #[trigger] t@[j] == out@[k] && selected(*props, out@[k]);
                    assert(t@[j].verification_challenge_key_hash@ != t@[i as int]
                        .verification_challenge_key_hash@);
                }
            }
            insert_ascending(&mut out, c.clone());
        }
        i += 1;
        proof {
            assert forall|x: VerificationChallenge| #[trigger]
                out@.contains(x) <==> exists|j: int|
                    0 <= j < i && #[trigger] t@[j] == x && selected(*props, x) by {
                if out@.contains(x) {
                    if before.contains(x) {
                        let j = choose|j: int|
                            0 <= j < i - 1 && #[trigger] t@[j] == x && selected(*props, x);
                        assert(0 <= j < i && t@[j] == x && selected(*props, x));
                    } else {
                        assert(t@[i - 1] == x);
                    }
                }
                if exists|j: int| 0 <= j < i && #[trigger] t@[j] == x && selected(*props, x) {
                    let j = choose|j: int|
                        0 <= j < i && #[trigger] t@[j] == x && selected(*props, x);
                    if j < i - 1 {
                        assert(before.contains(x));
                    }
                }
            }
        }
    }
    proof {
        assert forall|c: VerificationChallenge| #[trigger]
            out@.contains(c) <==> t@.contains(c) && selected(*props, c) by {
            if out@.contains(c) {
                let j = choose|j: int| 0 <= j < i && #[trigger] t@[j] == c && selected(*props, c);
                assert(t@[j] == c);
            }
            if t@.contains(c) && selected(*props, c) {
                let j = choose|j: int| 0 <= j < t@.len() && t@[j] == c;
                assert(t@[j] == c);
            }
        }
    }
    out
}

/// Two ascending sequences that hold the same rows are the same sequence.
pub proof fn lemma_ascending_unique(a: Seq<VerificationChallenge>, b: Seq<VerificationChallenge>)
    requires
        ascending(a),
        ascending(b),
        forall|c: VerificationChallenge| #[trigger] a.contains(c) <==> b.contains(c),
    ensures
        a == b,
    decreases a.len(),
{
    if a.len() == 0 {
        if b.len() > 0 {
            assert(b.contains(b[0]));
            assert(a.contains(b[0]));
        }
        assert(a =~= b);
    } else if b.len() == 0 {
        assert(a.contains(a[0]));
        assert(b.contains(a[0]));
    } else {
        assert(a.contains(a[0]));
        assert(b.contains(a[0]));
        assert(b.contains(b[0]));
        assert(a.contains(b[0]));
        let i = choose|i: int| 0 <= i < b.len() && b[i] == a[0];
        let j = choose|j: int| 0 <= j < a.len() && a[j] == b[0];
        let x = encode_utf8(a[0].verification_challenge_key_hash@);
        let y = encode_utf8(b[0].verification_challenge_key_hash@);
        lemma_precedes_asymmetric(x, y);
        if i > 0 && j > 0 {
            assert(comes_before(
                b[0].verification_challenge_key_hash@,
                b[i].verification_challenge_key_hash@,
            ));
            assert(comes_before(
                a[0].verification_challenge_key_hash@,
                a[j].verification_challenge_key_hash@,
            ));
        }
        assert(a[0] == b[0]);
        let a1 = a.drop_first();
        let b1 = b.drop_first();
        assert forall|c: VerificationChallenge| #[trigger] a1.contains(c) <==> b1.contains(c) by {
            lemma_rest(a, c);
            lemma_rest(b, c);
            assert(a.contains(c) <==> b.contains(c));
        }
        lemma_tail_ascending(a);
        lemma_tail_ascending(b);
        lemma_ascending_unique(a1, b1);
        assert(a =~= seq![a[0]] + a1);
        assert(b =~= seq![b[0]] + b1);
    }
}

/// A table has one listing under a query: two listings are the same
/// sequence.
pub proof fn lemma_listing_unique(
    t: Seq<VerificationChallenge>,
    props: VerificationChallengeViewProps,
    a: Seq<VerificationChallenge>,
    b: Seq<VerificationChallenge>,
)
    requires
        is_listing(t, props, a),
        is_listing(t, props, b),
    ensures
        a == b,
{
    assert forall|c: VerificationChallenge| #[trigger] a.contains(c) <==> b.contains(c) by {
        assert(b.contains(c) <==> t.contains(c) && selected(props, c));
    }
    lemma_ascending_unique(a, b);
}

/// The rows after the first of an ascending sequence are ascending.
proof fn lemma_tail_ascending(rows: Seq<VerificationChallenge>)
    requires
        ascending(rows),
        rows.len() > 0,
    ensures
        ascending(rows.drop_first()),
{
    let rest = rows.drop_first();
    assert forall|i: int, j: int| 0 <= i < j < rest.len() implies comes_before(
        (#[trigger] rest[i]).verification_challenge_key_hash@,
        (#[trigger] rest[j]).verification_challenge_key_hash@,
    ) by {
        assert(rest[i] == rows[i + 1]);
        assert(rest[j] == rows[j + 1]);
    }
}

/// The rows after the first of an ascending sequence are its rows other
/// than the first.
proof fn lemma_rest(rows: Seq<VerificationChallenge>, c: VerificationChallenge)
    requires
        ascending(rows),
        rows.len() > 0,
    ensures
        rows.drop_first().contains(c) <==> rows.contains(c) && c != rows[0],
{
    let rest = rows.drop_first();
    if rest.contains(c) {
        let k = choose|k: int| 0 <= k < rest.len() && rest[k] == c;
        assert(rows[k + 1] == c);
        let x = encode_utf8(rows[0].verification_challenge_key_hash@);
        lemma_precedes_asymmetric(x, x);
        assert(comes_before(
            rows[0].verification_challenge_key_hash@,
            rows[k + 1].verification_challenge_key_hash@,
        ));
    }
    if rows.contains(c) && c != rows[0] {
        let k = choose|k: int| 0 <= k < rows.len() && rows[k] == c;
        assert(rest[k - 1] == c);
    }
}

} // verus!
