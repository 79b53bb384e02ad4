//! The filters that the queries of the identity store share. An absent
//! filter accepts every row.
use crate::utils::str_eq;
use vstd::prelude::*;

verus! {

/// Whether `x` passes a filter on membership in a set of numbers.
pub open spec fn among(set: Option<Vec<i64>>, x: i64) -> bool {
    set matches Some(v) ==> v@.contains(x)
}

/// Whether one of the strings `v` holds the characters `s`.
pub open spec fn has_string(v: Seq<String>, s: Seq<char>) -> bool {
    exists|i: int| 0 <= i < v.len() && (#[trigger] v[i])@ == s
}

/// Whether `s` passes a filter on membership in a set of strings.
pub open spec fn among_strings(set: Option<Vec<String>>, s: Seq<char>) -> bool {
    set matches Some(v) ==> has_string(v@, s)
}

/// Whether `x` passes an inclusive lower bound.
pub open spec fn at_least(min: Option<i64>, x: i64) -> bool {
    min matches Some(m) ==> x >= m
}

/// Whether `x` passes an inclusive upper bound.
pub open spec fn at_most(max: Option<i64>, x: i64) -> bool {
    max matches Some(m) ==> x <= m
}

/// Whether `b` passes a filter on a flag.
pub open spec fn flag_is(flag: Option<bool>, b: bool) -> bool {
    flag matches Some(f) ==> f == b
}

/// Decides whether `x` passes a filter on membership in a set of numbers.
pub fn is_among(set: &Option<Vec<i64>>, x: i64) -> (r: bool)
    ensures
        r == among(*set, x),
{
    match set {
        None => true,
        Some(v) => {
            let mut i: usize = 0;
            while i < v.len()
                invariant
                    *set == Some(*v),
                    i <= v@.len(),
                    forall|j: int| 0 <= j < i ==> v@[j] != x,
                decreases v@.len() - i,
            {
                if v[i] == x {
                    assert(v@[i as int] == x);
                    return true;
                }
                i += 1;
            }
            false
        },
    }
}

/// Decides whether `s` passes a filter on membership in a set of strings.
pub fn is_among_strings(set: &Option<Vec<String>>, s: &str) -> (r: bool)
    ensures
        r == among_strings(*set, s@),
{
    match set {
        None => true,
        Some(v) => {
            let mut i: usize = 0;
            while i < v.len()
                invariant
                    *set == Some(*v),
                    i <= v@.len(),
                    forall|j: int| 0 <= j < i ==> (#[trigger] v@[j])@ != s@,
                decreases v@.len() - i,
            {
                if str_eq(v[i].as_str(), s) {
                    assert(v@[i as int]@ == s@);
                    assert(has_string(v@, s@));
                    return true;
                }
                i += 1;
            }
            false
        },
    }
}

/// Decides whether `x` passes an inclusive lower bound.
pub fn is_at_least(min: &Option<i64>, x: i64) -> (r: bool)
    ensures
        r == at_least(*min, x),
{
    match min {
        None => true,
        Some(m) => x >= *m,
    }
}

/// Decides whether `x` passes an inclusive upper bound.
pub fn is_at_most(max: &Option<i64>, x: i64) -> (r: bool)
    ensures
        r == at_most(*max, x),
{
    match max {
        None => true,
        Some(m) => x <= *m,
    }
}

/// Decides whether `b` passes a filter on a flag.
pub fn is_flag(flag: &Option<bool>, b: bool) -> (r: bool)
    ensures
        r == flag_is(*flag, b),
{
    match flag {
        None => true,
        Some(f) => *f == b,
    }
}

/// Filtering one more element of a sequence.
pub proof fn lemma_filter_step<T>(s: Seq<T>, i: int, p: spec_fn(T) -> bool)
    requires
        0 <= i < s.len(),
    ensures
        s.take(i + 1).filter(p) == if p(s[i]) {
            s.take(i).filter(p).push(s[i])
        } else {
            s.take(i).filter(p)
        },
{
    reveal(Seq::filter);
    assert(s.take(i + 1).drop_last() == s.take(i));
}

/// Whether the keys of `s` grow from each element to the next.
pub open spec fn ascending_by<T>(s: Seq<T>, key: spec_fn(T) -> int) -> bool {
    forall|i: int, j: int| 0 <= i < j < s.len() ==> key(#[trigger] s[i]) < key(#[trigger] s[j])
}

/// Filtering keeps the order: what is selected from an ascending sequence is
/// ascending, and each selected element is an element of the sequence.
pub proof fn lemma_filter_keeps_order<T>(s: Seq<T>, p: spec_fn(T) -> bool, key: spec_fn(T) -> int)
    requires
        ascending_by(s, key),
    ensures
        ascending_by(s.filter(p), key),
        forall|k: int|
            0 <= k < s.filter(p).len() ==> exists|m: int|
                0 <= m < s.len() && s[m] == #[trigger] s.filter(p)[k],
    decreases s.len(),
{
    reveal(Seq::filter);
    if s.len() > 0 {
        let front = s.drop_last();
        assert forall|i: int, j: int| 0 <= i < j < front.len() implies key(#[trigger] front[i])
            < key(#[trigger] front[j]) by {
            assert(front[i] == s[i]);
            assert(front[j] == s[j]);
        }
        lemma_filter_keeps_order(front, p, key);
        let kept = front.filter(p);
        let all = s.filter(p);
        assert forall|k: int| 0 <= k < all.len() implies exists|m: int|
            0 <= m < s.len() && s[m] == #[trigger] all[k] by {
            if k < kept.len() {
                let m = choose|m: int| 0 <= m < front.len() && front[m] == kept[k];
                assert(s[m] == all[k]);
            } else {
                assert(s[s.len() - 1] == all[k]);
            }
        }
        assert forall|i: int, j: int| 0 <= i < j < all.len() implies key(#[trigger] all[i]) < key(
            #[trigger] all[j],
        ) by {
            if j < kept.len() {
                assert(all[i] == kept[i]);
                assert(all[j] == kept[j]);
            } else {
                let m = choose|m: int| 0 <= m < front.len() && front[m] == kept[i];
                assert(s[m] == all[i]);
                assert(all[j] == s[s.len() - 1]);
            }
        }
    }
}

} // verus!
