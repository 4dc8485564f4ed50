//! Properties of the association list that span several operations, stated
//! over the spec functions that the operations' contracts use.

use vstd::prelude::*;
use vstd::std_specs::cmp::PartialEqSpec;

use crate::lookup::{
    eq_modelled, first_match, key_matches, lemma_first_match_found, lemma_first_match_is,
    lemma_no_match, lookup, put, set_value, swap_removed,
};
use crate::vec::Entry;

verus! {

/// Inserting-if-absent twice under a key that is absent and equal to itself:
/// the first call appends `(k, v1)`, which the second call then finds, at the
/// end, holding `v1`; the second call leaves the list as the first left it,
/// one pair longer than before.
pub proof fn or_insert_twice_keeps_first<K: PartialEq, V>(s: Seq<(K, V)>, k: K, v1: V)
    requires
        eq_modelled::<K, K>(),
        first_match(s, &k) == None::<int>,
        k.eq_spec(&k),
    ensures
        s.push((k, v1)).len() == s.len() + 1,
        first_match(s.push((k, v1)), &k) == Some(s.len() as int),
        s.push((k, v1))[s.len() as int].1 == v1,
        set_value(s.push((k, v1)), s.len() as int, v1) == s.push((k, v1)),
{
    let s1 = s.push((k, v1));
    lemma_first_match_found(s, &k);
    assert forall|j: int| 0 <= j < s.len() implies !key_matches(s1, j, &k) by {
        assert(s1[j] == s[j]);
        assert(!key_matches(s, j, &k));
    }
    lemma_first_match_is(s1, s.len() as int, &k);
    assert(set_value(s1, s.len() as int, v1) =~= s1);
}

/// Modify-or-insert run twice on a key that is absent and equal to itself:
/// the first run appends `(k, d)`; the second finds that pair and applies `f`
/// to `d`, so the list ends as the old one with `(k, f(d))` appended.
pub proof fn modify_or_insert_twice<K: PartialEq, V>(s: Seq<(K, V)>, k: K, d: V, f: spec_fn(V) -> V)
    requires
        eq_modelled::<K, K>(),
        first_match(s, &k) == None::<int>,
        k.eq_spec(&k),
    ensures
        first_match(s.push((k, d)), &k) == Some(s.len() as int),
        set_value(s.push((k, d)), s.len() as int, f(s.push((k, d))[s.len() as int].1)) == s.push(
            (k, f(d)),
        ),
{
    or_insert_twice_keeps_first(s, k, d);
    assert(set_value(s.push((k, d)), s.len() as int, f(d)) =~= s.push((k, f(d))));
}

/// Swap-removal of the pair at `i` leaves no gap: one pair fewer, the last
/// pair now at `i` (unless `i` was the last), every other pair where it was.
pub proof fn swap_remove_fills_gap<T>(s: Seq<T>, i: int)
    requires
        0 <= i < s.len(),
    ensures
        swap_removed(s, i).len() == s.len() - 1,
        i < s.len() - 1 ==> swap_removed(s, i)[i] == s.last(),
        forall|j: int| 0 <= j < s.len() - 1 && j != i ==> #[trigger] swap_removed(s, i)[j] == s[j],
{
}

/// Under duplicate keys the first pair wins: a lookup never reaches a later
/// duplicate, and setting the value under the key leaves that duplicate as
/// it was.
pub proof fn first_match_wins<K: PartialEq, V>(s: Seq<(K, V)>, k: K, i: int, j: int, v: V)
    requires
        eq_modelled::<K, K>(),
        i < j,
        key_matches(s, i, &k),
        key_matches(s, j, &k),
    ensures
        first_match(s, &k) is Some,
        first_match(s, &k)->0 <= i,
        lookup(s, &k) == Some(s[first_match(s, &k)->0].1),
        put(s, k, v).len() == s.len(),
        put(s, k, v)[j] == s[j],
{
    lemma_first_match_found(s, &k);
}

/// Lookups by two forms of a key agree wherever the stored keys compare
/// equal to both forms alike.
pub proof fn lookup_by_other_form_agrees<K: PartialEq<Q> + PartialEq, Q: ?Sized, V>(
    s: Seq<(K, V)>,
    k: &K,
    q: &Q,
)
    requires
        forall|i: int| 0 <= i < s.len() ==> (key_matches(s, i, k) <==> key_matches(s, i, q)),
    ensures
        first_match(s, k) == first_match(s, q),
        lookup(s, k) == lookup(s, q),
{
    lemma_first_match_found(s, k);
    lemma_first_match_found(s, q);
    match first_match(s, k) {
        Some(i) => {
            lemma_first_match_is(s, i, q);
        },
        None => {
            lemma_no_match(s, q);
        },
    }
}

/// A key that is not equal to itself is never found: inserting-if-absent
/// under it twice appends two pairs, one for each call.
pub proof fn irreflexive_key_duplicates<K: PartialEq, V>(s: Seq<(K, V)>, k: K, v1: V, v2: V)
    requires
        eq_modelled::<K, K>(),
        first_match(s, &k) == None::<int>,
        !k.eq_spec(&k),
    ensures
        first_match(s.push((k, v1)), &k) == None::<int>,
        s.push((k, v1)).push((k, v2)).len() == s.len() + 2,
        s.push((k, v1)).push((k, v2))[s.len() as int] == (k, v1),
        s.push((k, v1)).push((k, v2))[s.len() + 1int] == (k, v2),
{
    let s1 = s.push((k, v1));
    lemma_first_match_found(s, &k);
    assert forall|j: int| 0 <= j < s1.len() implies !key_matches(s1, j, &k) by {
        if j < s.len() {
            assert(s1[j] == s[j]);
            assert(!key_matches(s, j, &k));
        }
    }
    lemma_no_match(s1, &k);
}

/// Setting the value under a present key changes only that pair's value:
/// the length, every key, and every other pair stay as they were.
pub proof fn put_changes_only_first_match<K: PartialEq, V>(s: Seq<(K, V)>, k: K, v: V)
    requires
        first_match(s, &k) is Some,
    ensures
        put(s, k, v).len() == s.len(),
        put(s, k, v)[first_match(s, &k)->0] == (s[first_match(s, &k)->0].0, v),
        forall|j: int| 0 <= j < s.len() ==> #[trigger] put(s, k, v)[j].0 == s[j].0,
        forall|j: int|
            0 <= j < s.len() && j != first_match(s, &k)->0 ==> #[trigger] put(s, k, v)[j] == s[j],
{
    lemma_first_match_found(s, &k);
}

/// Filling the entry that a lookup of `k` produced sets the value under `k`:
/// what `or_insert` and its kin leave behind is what `insert` would.
pub proof fn entry_fill_is_put<K: PartialEq, V>(e: Entry<K, V>, k: K, v: V)
    requires
        eq_modelled::<K, K>(),
        e.wf(),
        e.held_key() == k,
        match e {
            Entry::Vacant(_) => first_match(e.backing()@, &k) == None::<int>,
            Entry::Occupied(o) => first_match(e.backing()@, &k) == Some(o.pos()),
        },
    ensures
        e.filled(v) == put(e.backing()@, k, v),
{
}

} // verus!
