use vstd::prelude::*;

use crate::lookup::{
    eq_modelled, find_index, first_match, lookup, put, set_value, swap_removed, without,
};
use crate::vec::{
    keys_of, values_of, Entry, IntoKeys, IntoValues, Keys, OccupiedEntry, VacantEntry, Values,
    ValuesMut,
};

verus! {

/// Map operations on a vector of `(key, value)` pairs whose keys need only
/// `PartialEq`. A lookup reaches the first pair whose key compares equal.
pub trait AssocExt<K: PartialEq, V> {
    /// The pairs, in order.
    spec fn pairs(&self) -> Seq<(K, V)>;

    /// The entry of `key`, for in-place lookup-then-mutate with one scan.
    fn entry(&mut self, key: K) -> (r: Entry<'_, K, V>)
        ensures
            r.wf(),
            r.held_key() == key,
            r.backing()@ == old(self).pairs(),
            final(r.backing())@ == final(self).pairs(),
            eq_modelled::<K, K>() ==> match r {
                Entry::Vacant(_) => first_match(old(self).pairs(), &key) == None::<int>,
                Entry::Occupied(e) => first_match(old(self).pairs(), &key) == Some(e.pos()),
            },
    ;

    /// The value of the first pair whose key equals `key`.
    fn get<Q: ?Sized>(&self, key: &Q) -> (r: Option<&V>)
        where K: PartialEq<Q>
        ensures
            r is Some ==> exists|i: int| 0 <= i < self.pairs().len() && *r->0 == self.pairs()[i].1,
            eq_modelled::<K, Q>() ==> match r {
                Some(v) => lookup(self.pairs(), key) == Some(*v),
                None => lookup(self.pairs(), key) == None::<V>,
            },
    ;

    /// Mutable access to the value of the first pair whose key equals `key`.
    fn get_mut<Q: ?Sized>(&mut self, key: &Q) -> (r: Option<&mut V>)
        where K: PartialEq<Q>
        ensures
            r is None ==> final(self).pairs() == old(self).pairs(),
            eq_modelled::<K, Q>() ==> match first_match(old(self).pairs(), key) {
                Some(i) => {
                    &&& r is Some
                    &&& *r->0 == old(self).pairs()[i].1
                    &&& final(self).pairs() == set_value(old(self).pairs(), i, *final(r->0))
                },
                None => r is None,
            },
    ;

    /// Sets the value under `key` and returns the value it replaced, or
    /// appends `(key, value)` and returns `None`.
    fn insert(&mut self, key: K, value: V) -> (r: Option<V>)
        ensures
            r is None ==> final(self).pairs() == old(self).pairs().push((key, value)),
            r is Some ==> exists|i: int|
                {
                    &&& 0 <= i < old(self).pairs().len()
                    &&& r->0 == old(self).pairs()[i].1
                    &&& final(self).pairs() == set_value(old(self).pairs(), i, value)
                },
            eq_modelled::<K, K>() ==> {
                &&& r == lookup(old(self).pairs(), &key)
                &&& final(self).pairs() == put(old(self).pairs(), key, value)
            },
    ;

    /// Swap-removes the first pair whose key equals `key` and returns its value.
    fn remove<Q: ?Sized>(&mut self, key: &Q) -> (r: Option<V>)
        where K: PartialEq<Q>
        ensures
            r is None ==> final(self).pairs() == old(self).pairs(),
            r is Some ==> exists|i: int|
                {
                    &&& 0 <= i < old(self).pairs().len()
                    &&& r->0 == old(self).pairs()[i].1
                    &&& final(self).pairs() == swap_removed(old(self).pairs(), i)
                },
            eq_modelled::<K, Q>() ==> {
                &&& r == lookup(old(self).pairs(), key)
                &&& final(self).pairs() == without(old(self).pairs(), key)
            },
    ;

    /// The keys, front to back.
    fn keys(&self) -> (r: Keys<'_, K, V>)
        ensures
            r.remaining() == keys_of(self.pairs()),
    ;

    /// The keys, front to back, taking the list.
    fn into_keys(self) -> (r: IntoKeys<K, V>)
        ensures
            r.remaining() == keys_of(self.pairs()),
    ;

    /// The values, front to back.
    fn values(&self) -> (r: Values<'_, K, V>)
        ensures
            r.remaining() == values_of(self.pairs()),
    ;

    /// The values, front to back, for change in place; the keys stay.
    fn values_mut(&mut self) -> (r: ValuesMut<'_, K, V>)
        ensures
            r.wf(),
            r.slice()@ == old(self).pairs(),
            final(r.slice())@ == final(self).pairs(),
    ;

    /// The values, front to back, taking the list.
    fn into_values(self) -> (r: IntoValues<K, V>)
        ensures
            r.remaining() == values_of(self.pairs()),
    ;
}

/// Mutable access to the value of the pair at `i`.
fn value_mut<K, V>(pairs: &mut Vec<(K, V)>, i: usize) -> (r: &mut V)
    requires
        i < old(pairs)@.len(),
    ensures
        *r == old(pairs)@[i as int].1,
        final(pairs)@ == set_value(old(pairs)@, i as int, *final(r)),
{
    &mut pairs[i].1
}

impl<K: PartialEq, V> AssocExt<K, V> for Vec<(K, V)> {
    open spec fn pairs(&self) -> Seq<(K, V)> {
        self@
    }

    fn entry(&mut self, key: K) -> (r: Entry<'_, K, V>) {
        match find_index(self.as_slice(), &key) {
            None => Entry::Vacant(VacantEntry::new(self, key)),
            Some(index) => Entry::Occupied(OccupiedEntry::new(self, key, index)),
        }
    }

    fn get<Q: ?Sized>(&self, key: &Q) -> (r: Option<&V>)
        where K: PartialEq<Q>
    {
        match find_index(self.as_slice(), key) {
            None => None,
            Some(index) => Some(&self[index].1),
        }
    }

    fn get_mut<Q: ?Sized>(&mut self, key: &Q) -> (r: Option<&mut V>)
        where K: PartialEq<Q>
    {
        match find_index(self.as_slice(), key) {
            None => None,
            Some(index) => {
                Some(value_mut(self, index))
            },
        }
    }

    fn insert(&mut self, key: K, value: V) -> (r: Option<V>) {
        match self.entry(key) {
            Entry::Occupied(entry) => {
                let slot = entry.into_mut();
                let mut v = value;
                std::mem::swap(&mut v, slot);
                Some(v)
            },
            Entry::Vacant(entry) => {
                entry.insert(value);
                None
            },
        }
    }

    fn remove<Q: ?Sized>(&mut self, key: &Q) -> (r: Option<V>)
        where K: PartialEq<Q>
    {
        match find_index(self.as_slice(), key) {
            None => None,
            Some(index) => {
                let ghost before = self@;
                let (_, v) = self.swap_remove(index);
                assert(self@ == swap_removed(before, index as int));
                Some(v)
            },
        }
    }

    fn keys(&self) -> (r: Keys<'_, K, V>) {
        Keys::new(self)
    }

    fn into_keys(self) -> (r: IntoKeys<K, V>) {
        IntoKeys::new(self)
    }

    fn values(&self) -> (r: Values<'_, K, V>) {
        Values::new(self)
    }

    fn values_mut(&mut self) -> (r: ValuesMut<'_, K, V>) {
        ValuesMut::new(self)
    }

    fn into_values(self) -> (r: IntoValues<K, V>) {
        IntoValues::new(self)
    }
}

/// The operations of `AssocExt` for keys whose equality is an equivalence
/// (`Eq`), which rules out keys that are not equal to themselves.
pub trait AssocStrictExt<K: Eq, V> {
    /// The pairs, in order.
    spec fn pairs(&self) -> Seq<(K, V)>;

    /// The entry of `key`, for in-place lookup-then-mutate with one scan.
    fn entry(&mut self, key: K) -> (r: Entry<'_, K, V>)
        ensures
            r.wf(),
            r.held_key() == key,
            r.backing()@ == old(self).pairs(),
            final(r.backing())@ == final(self).pairs(),
            eq_modelled::<K, K>() ==> match r {
                Entry::Vacant(_) => first_match(old(self).pairs(), &key) == None::<int>,
                Entry::Occupied(e) => first_match(old(self).pairs(), &key) == Some(e.pos()),
            },
    ;

    /// The value of the first pair whose key equals `key`.
    fn get<Q: ?Sized>(&self, key: &Q) -> (r: Option<&V>)
        where K: PartialEq<Q>
        ensures
            r is Some ==> exists|i: int| 0 <= i < self.pairs().len() && *r->0 == self.pairs()[i].1,
            eq_modelled::<K, Q>() ==> match r {
                Some(v) => lookup(self.pairs(), key) == Some(*v),
                None => lookup(self.pairs(), key) == None::<V>,
            },
    ;

    /// Mutable access to the value of the first pair whose key equals `key`.
    fn get_mut<Q: ?Sized>(&mut self, key: &Q) -> (r: Option<&mut V>)
        where K: PartialEq<Q>
        ensures
            r is None ==> final(self).pairs() == old(self).pairs(),
            eq_modelled::<K, Q>() ==> match first_match(old(self).pairs(), key) {
                Some(i) => {
                    &&& r is Some
                    &&& *r->0 == old(self).pairs()[i].1
                    &&& final(self).pairs() == set_value(old(self).pairs(), i, *final(r->0))
                },
                None => r is None,
            },
    ;

    /// Sets the value under `key` and returns the value it replaced, or
    /// appends `(key, value)` and returns `None`.
    fn insert(&mut self, key: K, value: V) -> (r: Option<V>)
        ensures
            r is None ==> final(self).pairs() == old(self).pairs().push((key, value)),
            r is Some ==> exists|i: int|
                {
                    &&& 0 <= i < old(self).pairs().len()
                    &&& r->0 == old(self).pairs()[i].1
                    &&& final(self).pairs() == set_value(old(self).pairs(), i, value)
                },
            eq_modelled::<K, K>() ==> {
                &&& r == lookup(old(self).pairs(), &key)
                &&& final(self).pairs() == put(old(self).pairs(), key, value)
            },
    ;

    /// Swap-removes the first pair whose key equals `key` and returns its value.
    fn remove<Q: ?Sized>(&mut self, key: &Q) -> (r: Option<V>)
        where K: PartialEq<Q>
        ensures
            r is None ==> final(self).pairs() == old(self).pairs(),
            r is Some ==> exists|i: int|
                {
                    &&& 0 <= i < old(self).pairs().len()
                    &&& r->0 == old(self).pairs()[i].1
                    &&& final(self).pairs() == swap_removed(old(self).pairs(), i)
                },
            eq_modelled::<K, Q>() ==> {
                &&& r == lookup(old(self).pairs(), key)
                &&& final(self).pairs() == without(old(self).pairs(), key)
            },
    ;

    /// The keys, front to back.
    fn keys(&self) -> (r: Keys<'_, K, V>)
        ensures
            r.remaining() == keys_of(self.pairs()),
    ;

    /// The keys, front to back, taking the list.
    fn into_keys(self) -> (r: IntoKeys<K, V>)
        ensures
            r.remaining() == keys_of(self.pairs()),
    ;

    /// The values, front to back.
    fn values(&self) -> (r: Values<'_, K, V>)
        ensures
            r.remaining() == values_of(self.pairs()),
    ;

    /// The values, front to back, for change in place; the keys stay.
    fn values_mut(&mut self) -> (r: ValuesMut<'_, K, V>)
        ensures
            r.wf(),
            r.slice()@ == old(self).pairs(),
            final(r.slice())@ == final(self).pairs(),
    ;

    /// The values, front to back, taking the list.
    fn into_values(self) -> (r: IntoValues<K, V>)
        ensures
            r.remaining() == values_of(self.pairs()),
    ;
}

impl<K: Eq, V> AssocStrictExt<K, V> for Vec<(K, V)> {
    open spec fn pairs(&self) -> Seq<(K, V)> {
        self@
    }

    fn entry(&mut self, key: K) -> (r: Entry<'_, K, V>) {
        AssocExt::entry(self, key)
    }

    fn get<Q: ?Sized>(&self, key: &Q) -> (r: Option<&V>)
        where K: PartialEq<Q>
    {
        AssocExt::get(self, key)
    }

    fn get_mut<Q: ?Sized>(&mut self, key: &Q) -> (r: Option<&mut V>)
        where K: PartialEq<Q>
    {
        AssocExt::get_mut(self, key)
    }

    fn insert(&mut self, key: K, value: V) -> (r: Option<V>) {
        AssocExt::insert(self, key, value)
    }

    fn remove<Q: ?Sized>(&mut self, key: &Q) -> (r: Option<V>)
        where K: PartialEq<Q>
    {
        AssocExt::remove(self, key)
    }

    fn keys(&self) -> (r: Keys<'_, K, V>) {
        AssocExt::keys(self)
    }

    fn into_keys(self) -> (r: IntoKeys<K, V>) {
        AssocExt::into_keys(self)
    }

    fn values(&self) -> (r: Values<'_, K, V>) {
        AssocExt::values(self)
    }

    fn values_mut(&mut self) -> (r: ValuesMut<'_, K, V>) {
        AssocExt::values_mut(self)
    }

    fn into_values(self) -> (r: IntoValues<K, V>) {
        AssocExt::into_values(self)
    }
}

} // verus!
