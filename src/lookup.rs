//! The linear lookup over an association list: a sequence of `(key, value)`
//! pairs searched left to right with the caller's own key equality.

use vstd::prelude::*;
use vstd::std_specs::cmp::PartialEqSpec;

verus! {

/// Whether `==` between `K` and `Q` is the relation that `eq_spec` describes.
/// Contracts about which pair a key reaches hold under this condition.
pub open spec fn eq_modelled<K: PartialEq<Q>, Q: ?Sized>() -> bool {
    <K as PartialEqSpec<Q>>::obeys_eq_spec()
}

/// The key stored at `i` compares equal to `key`.
pub open spec fn key_matches<K: PartialEq<Q>, Q: ?Sized, V>(pairs: Seq<(K, V)>, i: int, key: &Q) -> bool {
    0 <= i < pairs.len() && pairs[i].0.eq_spec(key)
}

/// `i` is the lowest index whose key compares equal to `key`.
pub open spec fn is_first_match<K: PartialEq<Q>, Q: ?Sized, V>(pairs: Seq<(K, V)>, i: int, key: &Q) -> bool {
    &&& key_matches(pairs, i, key)
    &&& forall|j: int| 0 <= j < i ==> !key_matches(pairs, j, key)
}

/// Some pair of `pairs` has a key that compares equal to `key`.
pub open spec fn has_key<K: PartialEq<Q>, Q: ?Sized, V>(pairs: Seq<(K, V)>, key: &Q) -> bool {
    exists|i: int| key_matches(pairs, i, key)
}

/// The position that a lookup of `key` reaches: the first match, or `None`.
/// Later pairs with an equal key are shadowed.
pub open spec fn first_match<K: PartialEq<Q>, Q: ?Sized, V>(pairs: Seq<(K, V)>, key: &Q) -> Option<int> {
    if has_key(pairs, key) {
        Some(choose|i: int| is_first_match(pairs, i, key))
    } else {
        None
    }
}

/// The value that a lookup of `key` reaches.
pub open spec fn lookup<K: PartialEq<Q>, Q: ?Sized, V>(pairs: Seq<(K, V)>, key: &Q) -> Option<V> {
    match first_match(pairs, key) {
        Some(i) => Some(pairs[i].1),
        None => None,
    }
}

/// The pairs after the value under `key` is set to `v`: the first pair whose
/// key equals `key` keeps its key and takes `v`; with no such pair,
/// `(key, v)` is appended.
pub open spec fn put<K: PartialEq, V>(pairs: Seq<(K, V)>, key: K, v: V) -> Seq<(K, V)> {
    match first_match(pairs, &key) {
        Some(i) => pairs.update(i, (pairs[i].0, v)),
        None => pairs.push((key, v)),
    }
}

/// The pairs after the value at `i` is replaced by `v`, its key kept.
pub open spec fn set_value<K, V>(pairs: Seq<(K, V)>, i: int, v: V) -> Seq<(K, V)> {
    pairs.update(i, (pairs[i].0, v))
}

/// Swap-removal of the pair at `i`: the last pair moves into slot `i` and
/// the sequence shrinks by one.
pub open spec fn swap_removed<T>(s: Seq<T>, i: int) -> Seq<T> {
    s.update(i, s.last()).drop_last()
}

/// The pairs after removing the first pair whose key equals `key`, if any.
pub open spec fn without<K: PartialEq<Q>, Q: ?Sized, V>(pairs: Seq<(K, V)>, key: &Q) -> Seq<(K, V)> {
    match first_match(pairs, key) {
        Some(i) => swap_removed(pairs, i),
        None => pairs,
    }
}

/// A first match is the one that `first_match` names.
pub proof fn lemma_first_match_is<K: PartialEq<Q>, Q: ?Sized, V>(pairs: Seq<(K, V)>, i: int, key: &Q)
    requires
        is_first_match(pairs, i, key),
    ensures
        first_match(pairs, key) == Some(i),
{
    assert(has_key(pairs, key));
    let c = choose|c: int| is_first_match(pairs, c, key);
    assert(is_first_match(pairs, c, key));
    if c < i {
        assert(!key_matches(pairs, c, key));
    } else if i < c {
        assert(!key_matches(pairs, i, key));
    }
}

/// With no matching key, `first_match` is `None`.
pub proof fn lemma_no_match<K: PartialEq<Q>, Q: ?Sized, V>(pairs: Seq<(K, V)>, key: &Q)
    requires
        forall|j: int| 0 <= j < pairs.len() ==> !key_matches(pairs, j, key),
    ensures
        first_match(pairs, key) == None::<int>,
{
}

/// Whatever it names, `first_match` names a first match.
pub proof fn lemma_first_match_found<K: PartialEq<Q>, Q: ?Sized, V>(pairs: Seq<(K, V)>, key: &Q)
    ensures
        match first_match(pairs, key) {
            Some(i) => is_first_match(pairs, i, key),
            None => !has_key(pairs, key),
        },
{
    if has_key(pairs, key) {
        let w = choose|w: int| key_matches(pairs, w, key);
        lemma_least_match(pairs, key, w);
    }
}

proof fn lemma_least_match<K: PartialEq<Q>, Q: ?Sized, V>(pairs: Seq<(K, V)>, key: &Q, w: int)
    requires
        key_matches(pairs, w, key),
    ensures
        exists|i: int| is_first_match(pairs, i, key),
    decreases w,
{
    if forall|j: int| 0 <= j < w ==> !key_matches(pairs, j, key) {
        assert(is_first_match(pairs, w, key));
    } else {
        let j = choose|j: int| 0 <= j < w && key_matches(pairs, j, key);
        lemma_least_match(pairs, key, j);
    }
}

/// Scans `pairs` from the front and returns the index of the first pair
/// whose key compares equal to `key`, or `None`. Each key is compared at
/// most once and the scan stops at the first match.
pub fn find_index<K: PartialEq<Q>, Q: ?Sized, V>(pairs: &[(K, V)], key: &Q) -> (r: Option<usize>)
    ensures
        match r {
            Some(i) => i < pairs@.len(),
            None => true,
        },
        eq_modelled::<K, Q>() ==> match r {
            Some(i) => first_match(pairs@, key) == Some(i as int),
            None => first_match(pairs@, key) == None::<int>,
        },
{
    let mut i: usize = 0;
    while i < pairs.len()
        invariant
            i <= pairs@.len(),
            eq_modelled::<K, Q>() ==> forall|j: int| 0 <= j < i ==> !key_matches(pairs@, j, key),
        decreases pairs@.len() - i,
    {
        if pairs[i].0.eq(key) {
            proof {
                if eq_modelled::<K, Q>() {
                    lemma_first_match_is(pairs@, i as int, key);
                }
            }
            return Some(i);
        }
        i += 1;
    }
    proof {
        if eq_modelled::<K, Q>() {
            lemma_no_match(pairs@, key);
        }
    }
    None
}

} // verus!
