//! The mathematics of name-keyed entry lists kept in name order: where a
//! name belongs, what a lookup finds, and what an insertion leaves.
use vstd::prelude::*;

use crate::text::{lemma_seq_lt_asym, lemma_seq_lt_irrefl, lemma_seq_lt_total, lemma_seq_lt_trans, seq_lt};

verus! {


/// The names strictly increase along the list.
pub open spec fn keys_sorted<A>(s: Seq<(Seq<char>, A)>) -> bool {
    forall|i: int, j: int| 0 <= i < j < s.len() ==> seq_lt(#[trigger] s[i].0, #[trigger] s[j].0)
}

/// The first position whose name does not come before `k`.
pub open spec fn lower_bound<A>(s: Seq<(Seq<char>, A)>, k: Seq<char>) -> int
    decreases s.len(),
{
    if s.len() == 0 {
        0
    } else if !seq_lt(s[0].0, k) {
        0
    } else {
        1 + lower_bound(s.skip(1), k)
    }
}

/// What a lookup of `k` finds: the entry at the lower bound when its name is `k`.
pub open spec fn key_lookup<A>(s: Seq<(Seq<char>, A)>, k: Seq<char>) -> Option<A> {
    let p = lower_bound(s, k);
    if 0 <= p < s.len() && s[p].0 == k {
        Some(s[p].1)
    } else {
        None
    }
}

/// The list after inserting `k ↦ a`: replaces the entry named `k` at the
/// lower bound, or inserts a new entry there.
pub open spec fn key_insert<A>(s: Seq<(Seq<char>, A)>, k: Seq<char>, a: A) -> Seq<(Seq<char>, A)> {
    let p = lower_bound(s, k);
    if 0 <= p < s.len() && s[p].0 == k {
        s.update(p, (k, a))
    } else {
        s.insert(p, (k, a))
    }
}

/// Whether some entry is named `k`.
pub open spec fn has_key<A>(s: Seq<(Seq<char>, A)>, k: Seq<char>) -> bool {
    exists|i: int| 0 <= i < s.len() && (#[trigger] s[i]).0 == k
}

pub proof fn lemma_lower_bound<A>(s: Seq<(Seq<char>, A)>, k: Seq<char>)
    ensures
        0 <= lower_bound(s, k) <= s.len(),
        forall|i: int| 0 <= i < lower_bound(s, k) ==> seq_lt(#[trigger] s[i].0, k),
        lower_bound(s, k) < s.len() ==> !seq_lt(s[lower_bound(s, k)].0, k),
    decreases s.len(),
{
    if s.len() > 0 && seq_lt(s[0].0, k) {
        lemma_lower_bound(s.skip(1), k);
        assert forall|i: int| 0 <= i < lower_bound(s, k) implies seq_lt(#[trigger] s[i].0, k) by {
            if i > 0 {
                assert(s[i] == s.skip(1)[i - 1]);
            }
        }
    }
}

/// In a sorted list, the lower bound is past every name before `k` and at or
/// before every name not before `k`.
pub proof fn lemma_lower_bound_sorted<A>(s: Seq<(Seq<char>, A)>, k: Seq<char>)
    requires
        keys_sorted(s),
    ensures
        forall|i: int| lower_bound(s, k) <= i < s.len() ==> !seq_lt(#[trigger] s[i].0, k),
        forall|i: int|
            lower_bound(s, k) < i < s.len() && lower_bound(s, k) < s.len() && s[lower_bound(s, k)].0
                == k ==> seq_lt(k, #[trigger] s[i].0),
{
    lemma_lower_bound(s, k);
    let p = lower_bound(s, k);
    assert forall|i: int| p <= i < s.len() implies !seq_lt(#[trigger] s[i].0, k) by {
        if i > p {
            if seq_lt(s[i].0, k) {
                assert(seq_lt(s[p].0, s[i].0));
                lemma_seq_lt_trans(s[p].0, s[i].0, k);
            }
        }
    }
    assert forall|i: int| p < i < s.len() && p < s.len() && s[p].0 == k implies seq_lt(
        k,
        #[trigger] s[i].0,
    ) by {
        assert(seq_lt(s[p].0, s[i].0));
    }
}

/// A lookup in a sorted list finds `k` exactly when some entry is named `k`,
/// and then finds that entry.
pub proof fn lemma_lookup_sorted<A>(s: Seq<(Seq<char>, A)>, k: Seq<char>)
    requires
        keys_sorted(s),
    ensures
        key_lookup(s, k) is Some <==> has_key(s, k),
        forall|i: int| 0 <= i < s.len() && (#[trigger] s[i]).0 == k ==> key_lookup(s, k) == Some(s[i].1),
{
    lemma_lower_bound(s, k);
    lemma_lower_bound_sorted(s, k);
    let p = lower_bound(s, k);
    assert forall|i: int| 0 <= i < s.len() && (#[trigger] s[i]).0 == k implies key_lookup(s, k)
        == Some(s[i].1) by {
        lemma_seq_lt_irrefl(k);
        if i > p {
            if s[p].0 != k {
                lemma_seq_lt_total(s[p].0, k);
                assert(seq_lt(s[p].0, s[i].0));
            }
        }
    }
    if has_key(s, k) {
        let i = choose|i: int| 0 <= i < s.len() && (#[trigger] s[i]).0 == k;
        assert(key_lookup(s, k) == Some(s[i].1));
    }
}

/// Inserting into a sorted list keeps it sorted.
pub proof fn lemma_insert_sorted<A>(s: Seq<(Seq<char>, A)>, k: Seq<char>, a: A)
    requires
        keys_sorted(s),
    ensures
        keys_sorted(key_insert(s, k, a)),
{
    lemma_lower_bound(s, k);
    lemma_lower_bound_sorted(s, k);
    let p = lower_bound(s, k);
    let r = key_insert(s, k, a);
    if 0 <= p < s.len() && s[p].0 == k {
        assert forall|i: int, j: int| 0 <= i < j < r.len() implies seq_lt(
            #[trigger] r[i].0,
            #[trigger] r[j].0,
        ) by {
            assert(seq_lt(s[i].0, s[j].0));
        }
    } else {
        assert forall|i: int, j: int| 0 <= i < j < r.len() implies seq_lt(
            #[trigger] r[i].0,
            #[trigger] r[j].0,
        ) by {
            if j < p {
                assert(r[i] == s[i] && r[j] == s[j]);
            } else if j == p {
                assert(r[i] == s[i]);
            } else if i == p {
                assert(r[j] == s[j - 1]);
                assert(!seq_lt(s[j - 1].0, k));
                lemma_seq_lt_total(s[j - 1].0, k);
                if j - 1 > p {
                    assert(seq_lt(s[p].0, s[j - 1].0));
                    assert(!seq_lt(s[p].0, k));
                    lemma_seq_lt_total(s[p].0, k);
                }
            } else if i < p {
                assert(r[i] == s[i] && r[j] == s[j - 1]);
                if j - 1 == p {
                    lemma_seq_lt_total(s[p].0, k);
                    if seq_lt(k, s[p].0) {
                        lemma_seq_lt_trans(s[i].0, k, s[p].0);
                    }
                } else {
                    assert(seq_lt(s[i].0, s[j - 1].0));
                }
            } else {
                assert(r[i] == s[i - 1] && r[j] == s[j - 1]);
                assert(seq_lt(s[i - 1].0, s[j - 1].0));
            }
        }
    }
}

/// After inserting `k ↦ a`, looking up `k` finds `a`.
pub proof fn lemma_insert_lookup_same<A>(s: Seq<(Seq<char>, A)>, k: Seq<char>, a: A)
    requires
        keys_sorted(s),
    ensures
        key_lookup(key_insert(s, k, a), k) == Some(a),
{
    lemma_lower_bound(s, k);
    let p = lower_bound(s, k);
    lemma_insert_sorted(s, k, a);
    let r = key_insert(s, k, a);
    assert(r[p].0 == k);
    lemma_lookup_sorted(r, k);
}

/// After inserting `k ↦ a`, looking up any other name finds what it found before.
pub proof fn lemma_insert_lookup_other<A>(s: Seq<(Seq<char>, A)>, k: Seq<char>, a: A, k2: Seq<char>)
    requires
        keys_sorted(s),
        k2 != k,
    ensures
        key_lookup(key_insert(s, k, a), k2) == key_lookup(s, k2),
{
    lemma_lower_bound(s, k);
    let p = lower_bound(s, k);
    lemma_insert_sorted(s, k, a);
    let r = key_insert(s, k, a);
    lemma_lookup_sorted(r, k2);
    lemma_lookup_sorted(s, k2);
    if has_key(s, k2) {
        let i = choose|i: int| 0 <= i < s.len() && (#[trigger] s[i]).0 == k2;
        if 0 <= p < s.len() && s[p].0 == k {
            assert(r[i] == s[i]);
        } else if i < p {
            assert(r[i] == s[i]);
        } else {
            assert(r[i + 1] == s[i]);
        }
    }
    if has_key(r, k2) {
        let i = choose|i: int| 0 <= i < r.len() && (#[trigger] r[i]).0 == k2;
        if 0 <= p < s.len() && s[p].0 == k {
            assert(r[i] == s[i]);
        } else if i < p {
            assert(r[i] == s[i]);
        } else if i > p {
            assert(r[i] == s[i - 1]);
        }
    }
}

/// Inserting a name that is already present keeps the length; a new name adds one.
pub proof fn lemma_insert_len<A>(s: Seq<(Seq<char>, A)>, k: Seq<char>, a: A)
    requires
        keys_sorted(s),
    ensures
        key_insert(s, k, a).len() == if has_key(s, k) {
            s.len()
        } else {
            s.len() + 1
        },
{
    lemma_lower_bound(s, k);
    lemma_lookup_sorted(s, k);
}

} // verus!
