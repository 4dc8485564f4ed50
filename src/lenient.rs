//! A variant of the entry API whose entry is a plain enum holding the
//! borrowed list, the key and, when occupied, the position.

use vstd::prelude::*;

use crate::lookup::{eq_modelled, find_index, first_match, set_value};
use crate::pushable::Pushable;

verus! {

/// The entry API on a vector of `(key, value)` pairs whose keys need only
/// `PartialEq`.
pub trait AssocListExt<K: PartialEq, V> {
    /// The pairs, in order.
    spec fn pairs(&self) -> Seq<(K, V)>;

    /// The entry of `key`: occupied at the first pair whose key equals it,
    /// else vacant.
    fn entry(&mut self, key: K) -> (r: Entry<'_, K, V>)
        ensures
            r.wf(),
            r.held_key() == key,
            r.backing()@ == old(self).pairs(),
            final(r.backing())@ == final(self).pairs(),
            eq_modelled::<K, K>() ==> match r {
                Entry::Vacant(..) => first_match(old(self).pairs(), &key) == None::<int>,
                Entry::Occupied(_, _, i) => first_match(old(self).pairs(), &key) == Some(i as int),
            },
    ;
}

impl<K: PartialEq, V> AssocListExt<K, V> for Vec<(K, V)> {
    open spec fn pairs(&self) -> Seq<(K, V)> {
        self@
    }

    fn entry(&mut self, key: K) -> (r: Entry<'_, K, V>) {
        match find_index(self.as_slice(), &key) {
            Some(i) => Entry::Occupied(self, key, i),
            None => Entry::Vacant(self, key),
        }
    }
}

/// One key's position in a borrowed list: absent, or found at an index.
pub enum Entry<'a, K: 'a, V: 'a> {
    /// The list and the key, which has no pair in it.
    Vacant(&'a mut Vec<(K, V)>, K),
    /// The list, the key, and the index of its pair.
    Occupied(&'a mut Vec<(K, V)>, K, usize),
}

/// Mutable access to the value of the pair at `i`.
fn value_at<'a, K, V>(list: &'a mut Vec<(K, V)>, i: usize) -> (r: &'a mut V)
    requires
        i < old(list)@.len(),
    ensures
        *r == old(list)@[i as int].1,
        final(list)@ == set_value(old(list)@, i as int, *final(r)),
{
    &mut list[i].1
}

/// Appends `(key, v)` and returns mutable access to the stored value.
fn append<'a, K, V>(list: &'a mut Vec<(K, V)>, key: K, v: V) -> (r: &'a mut V)
    ensures
        *r == v,
        final(list)@ == old(list)@.push((key, *final(r))),
{
    list.push((key, v));
    let last = Pushable::last_mut(list).unwrap();
    &mut last.1
}

impl<'a, K: 'a, V: 'a> Entry<'a, K, V> {
    /// The borrowed list.
    pub open spec fn backing(&self) -> &'a mut Vec<(K, V)> {
        match self {
            Entry::Vacant(list, _) => *list,
            Entry::Occupied(list, _, _) => *list,
        }
    }

    /// The key that the entry holds.
    pub open spec fn held_key(&self) -> K {
        match self {
            Entry::Vacant(_, key) => *key,
            Entry::Occupied(_, key, _) => *key,
        }
    }

    /// An occupied entry's index lies inside the list.
    pub open spec fn wf(&self) -> bool {
        match self {
            Entry::Vacant(..) => true,
            Entry::Occupied(list, _, i) => *i < list@.len(),
        }
    }

    /// The value at an occupied entry's index.
    pub open spec fn value(&self) -> V {
        match self {
            Entry::Vacant(..) => arbitrary(),
            Entry::Occupied(list, _, i) => list@[*i as int].1,
        }
    }

    /// The list once a value `v` is in place: appended with the held key if
    /// the entry is vacant, stored at the entry's index if occupied.
    pub open spec fn filled(&self, v: V) -> Seq<(K, V)> {
        match self {
            Entry::Vacant(list, key) => list@.push((*key, v)),
            Entry::Occupied(list, _, i) => set_value(list@, *i as int, v),
        }
    }

    /// Makes sure the entry holds a value, appending `(key, default)` if it is
    /// vacant, and returns mutable access to the value.
    pub fn or_insert(self, default: V) -> (r: &'a mut V)
        requires
            self.wf(),
        ensures
            *r == match self {
                Entry::Vacant(..) => default,
                Entry::Occupied(..) => self.value(),
            },
            final(self.backing())@ == self.filled(*final(r)),
    {
        match self {
            Entry::Vacant(list, key) => append(list, key, default),
            Entry::Occupied(list, _, index) => value_at(list, index),
        }
    }

    /// Like `or_insert`, with the value made by `default` only if the entry
    /// is vacant.
    pub fn or_insert_with<F: FnOnce() -> V>(self, default: F) -> (r: &'a mut V)
        requires
            self.wf(),
            self is Vacant ==> default.requires(()),
        ensures
            match self {
                Entry::Vacant(..) => default.ensures((), *r),
                Entry::Occupied(..) => *r == self.value(),
            },
            final(self.backing())@ == self.filled(*final(r)),
    {
        match self {
            Entry::Vacant(list, key) => append(list, key, default()),
            Entry::Occupied(list, _, index) => value_at(list, index),
        }
    }

    /// Like `or_insert_with`, with `default` given the held key, so that the
    /// key need not be cloned.
    pub fn or_insert_with_key<F: FnOnce(&K) -> V>(self, default: F) -> (r: &'a mut V)
        requires
            self.wf(),
            self is Vacant ==> default.requires((&self.held_key(),)),
        ensures
            match self {
                Entry::Vacant(..) => default.ensures((&self.held_key(),), *r),
                Entry::Occupied(..) => *r == self.value(),
            },
            final(self.backing())@ == self.filled(*final(r)),
    {
        match self {
            Entry::Vacant(list, key) => {
                let v = default(&key);
                append(list, key, v)
            },
            Entry::Occupied(list, _, index) => value_at(list, index),
        }
    }

    /// The key that the entry holds.
    pub fn key(&self) -> (r: &K)
        ensures
            *r == self.held_key(),
    {
        match self {
            Entry::Vacant(_, key) => key,
            Entry::Occupied(_, key, _) => key,
        }
    }

    /// Runs `f` on the value of an occupied entry; a vacant entry is returned
    /// as it is and `f` is not run. Never inserts, never changes the variant.
    pub fn and_modify<F: FnOnce(&mut V)>(self, f: F) -> (r: Entry<'a, K, V>)
        requires
            self.wf(),
            self is Occupied ==> forall|m: &mut V| *m == self.value() ==> f.requires((m,)),
        ensures
            r.wf(),
            r.held_key() == self.held_key(),
            *final(r.backing()) == *final(self.backing()),
            match (self, r) {
                (Entry::Vacant(..), Entry::Vacant(..)) => *r.backing() == *self.backing(),
                (Entry::Occupied(l0, _, i), Entry::Occupied(l1, _, j)) => {
                    &&& j == i
                    &&& exists|m: &mut V|
                        {
                            &&& *m == l0@[i as int].1
                            &&& f.ensures((m,), ())
                            &&& l1@ == set_value(l0@, i as int, *final(m))
                        }
                },
                _ => false,
            },
    {
        match self {
            Entry::Occupied(list, key, index) => {
                f(value_at(&mut *list, index));
                Entry::Occupied(list, key, index)
            },
            vacant => vacant,
        }
    }
}

impl<'a, K: 'a, V: 'a + Default> Entry<'a, K, V> {
    /// Like `or_insert`, with `V::default()` as the value if the entry is vacant.
    pub fn or_default(self) -> (r: &'a mut V)
        requires
            self.wf(),
        ensures
            match self {
                Entry::Vacant(..) => call_ensures(V::default, (), *r),
                Entry::Occupied(..) => *r == self.value(),
            },
            final(self.backing())@ == self.filled(*final(r)),
    {
        self.or_insert_with(V::default)
    }
}

} // verus!
