use vstd::prelude::*;

use crate::lookup::{set_value, swap_removed};

verus! {

/// A view into one key's position in an association list: vacant or occupied.
pub enum Entry<'a, K: 'a, V: 'a> {
    /// The key has no pair in the list.
    Vacant(VacantEntry<'a, K, V>),
    /// The key was found at a position of the list.
    Occupied(OccupiedEntry<'a, K, V>),
}

/// An entry for a key that has no pair in the list.
pub struct VacantEntry<'a, K: 'a, V: 'a> {
    vec: &'a mut Vec<(K, V)>,
    key: K,
}

/// An entry for a key found at a position of the list.
pub struct OccupiedEntry<'a, K: 'a, V: 'a> {
    vec: &'a mut Vec<(K, V)>,
    key: K,
    index: usize,
}

impl<'a, K: 'a, V: 'a> VacantEntry<'a, K, V> {
    /// The borrowed list.
    pub closed spec fn backing(&self) -> &'a mut Vec<(K, V)> {
        self.vec
    }

    /// The key that an insertion would store.
    pub closed spec fn held_key(&self) -> K {
        self.key
    }

    pub(crate) fn new(vec: &'a mut Vec<(K, V)>, key: K) -> (r: VacantEntry<'a, K, V>)
        ensures
            *r.backing() == *old(vec),
            *final(r.backing()) == *final(vec),
            r.held_key() == key,
    {
        VacantEntry { vec, key }
    }

    /// The key that an insertion through this entry would store.
    pub fn key(&self) -> (r: &K)
        ensures
            *r == self.held_key(),
    {
        &self.key
    }

    /// Takes the key back; the list is left as it was.
    pub fn into_key(self) -> (r: K)
        ensures
            r == self.held_key(),
            final(self.backing())@ == self.backing()@,
    {
        self.key
    }

    /// Appends `(key, v)` to the end of the list and returns the stored value.
    pub fn insert(self, v: V) -> (r: &'a mut V)
        ensures
            *r == v,
            final(self.backing())@ == self.backing()@.push((self.held_key(), *final(r))),
    {
        let n = self.vec.len();
        self.vec.push((self.key, v));
        &mut self.vec[n].1
    }
}

impl<'a, K: 'a, V: 'a> OccupiedEntry<'a, K, V> {
    /// The borrowed list.
    pub closed spec fn backing(&self) -> &'a mut Vec<(K, V)> {
        self.vec
    }

    /// The key that the entry was made for.
    pub closed spec fn held_key(&self) -> K {
        self.key
    }

    /// The position of the pair in the list.
    pub closed spec fn pos(&self) -> int {
        self.index as int
    }

    /// The position lies inside the list.
    pub open spec fn wf(&self) -> bool {
        0 <= self.pos() < self.backing()@.len()
    }

    /// The value stored at the entry's position.
    pub open spec fn value(&self) -> V {
        self.backing()@[self.pos()].1
    }

    pub(crate) fn new(vec: &'a mut Vec<(K, V)>, key: K, index: usize) -> (r: OccupiedEntry<'a, K, V>)
        ensures
            *r.backing() == *old(vec),
            *final(r.backing()) == *final(vec),
            r.held_key() == key,
            r.pos() == index,
    {
        OccupiedEntry { vec, key, index }
    }

    /// The key that the entry was made for.
    pub fn key(&self) -> (r: &K)
        ensures
            *r == self.held_key(),
    {
        &self.key
    }

    /// Swap-removes the pair from the list and returns it.
    pub fn remove_entry(self) -> (r: (K, V))
        requires
            self.wf(),
        ensures
            r == self.backing()@[self.pos()],
            final(self.backing())@ == swap_removed(self.backing()@, self.pos()),
    {
        self.vec.swap_remove(self.index)
    }

    /// The value in the entry.
    pub fn get(&self) -> (r: &V)
        requires
            self.wf(),
        ensures
            *r == self.value(),
    {
        &self.vec[self.index].1
    }

    /// Mutable access to the value in the entry, which stays usable after.
    pub fn get_mut(&mut self) -> (r: &mut V)
        requires
            old(self).wf(),
        ensures
            *r == old(self).value(),
            final(self).held_key() == old(self).held_key(),
            final(self).pos() == old(self).pos(),
            final(self).backing()@ == set_value(old(self).backing()@, old(self).pos(), *final(r)),
            *final(final(self).backing()) == *final(old(self).backing()),
    {
        &mut self.vec[self.index].1
    }

    /// Turns the entry into mutable access to its value, for as long as the
    /// list is borrowed.
    pub fn into_mut(self) -> (r: &'a mut V)
        requires
            self.wf(),
        ensures
            *r == self.value(),
            final(self.backing())@ == set_value(self.backing()@, self.pos(), *final(r)),
    {
        &mut self.vec[self.index].1
    }

    /// Stores `v` as the entry's value and returns the value it replaced.
    pub fn insert(&mut self, v: V) -> (r: V)
        requires
            old(self).wf(),
        ensures
            r == old(self).value(),
            final(self).held_key() == old(self).held_key(),
            final(self).pos() == old(self).pos(),
            final(self).backing()@ == set_value(old(self).backing()@, old(self).pos(), v),
            *final(final(self).backing()) == *final(old(self).backing()),
    {
        let mut v = v;
        std::mem::swap(&mut v, &mut self.vec[self.index].1);
        v
    }

    /// Swap-removes the pair from the list and returns its value.
    pub fn remove(self) -> (r: V)
        requires
            self.wf(),
        ensures
            r == self.value(),
            final(self.backing())@ == swap_removed(self.backing()@, self.pos()),
    {
        let (_, v) = self.remove_entry();
        v
    }
}

impl<'a, K: 'a, V: 'a> Entry<'a, K, V> {
    /// The borrowed list.
    pub open spec fn backing(&self) -> &'a mut Vec<(K, V)> {
        match self {
            Entry::Vacant(e) => e.backing(),
            Entry::Occupied(e) => e.backing(),
        }
    }

    /// The key that the entry was made for.
    pub open spec fn held_key(&self) -> K {
        match self {
            Entry::Vacant(e) => e.held_key(),
            Entry::Occupied(e) => e.held_key(),
        }
    }

    /// An occupied entry's position lies inside the list.
    pub open spec fn wf(&self) -> bool {
        match self {
            Entry::Vacant(_) => true,
            Entry::Occupied(e) => e.wf(),
        }
    }

    /// The list once a value `v` is in place: appended with the held key if
    /// the entry is vacant, stored at the entry's position if occupied.
    pub open spec fn filled(&self, v: V) -> Seq<(K, V)> {
        match self {
            Entry::Vacant(e) => e.backing()@.push((e.held_key(), v)),
            Entry::Occupied(e) => set_value(e.backing()@, e.pos(), v),
        }
    }

    /// Makes sure the entry holds a value, appending `(key, default)` if it is
    /// vacant, and returns mutable access to the value.
    pub fn or_insert(self, default: V) -> (r: &'a mut V)
        requires
            self.wf(),
        ensures
            *r == match self {
                Entry::Vacant(_) => default,
                Entry::Occupied(e) => e.value(),
            },
            final(self.backing())@ == self.filled(*final(r)),
    {
        match self {
            Entry::Vacant(entry) => entry.insert(default),
            Entry::Occupied(entry) => entry.into_mut(),
        }
    }

    /// Like `or_insert`, with the value made by `default` only if the entry
    /// is vacant.
    pub fn or_insert_with<F: FnOnce() -> V>(self, default: F) -> (r: &'a mut V)
        requires
            self.wf(),
            self is Vacant ==> default.requires(()),
        ensures
            match self {
                Entry::Vacant(_) => default.ensures((), *r),
                Entry::Occupied(e) => *r == e.value(),
            },
            final(self.backing())@ == self.filled(*final(r)),
    {
        match self {
            Entry::Vacant(entry) => entry.insert(default()),
            Entry::Occupied(entry) => entry.into_mut(),
        }
    }

    /// Like `or_insert_with`, with `default` given the held key, so that the
    /// key need not be cloned.
    pub fn or_insert_with_key<F: FnOnce(&K) -> V>(self, default: F) -> (r: &'a mut V)
        requires
            self.wf(),
            self is Vacant ==> default.requires((&self.held_key(),)),
        ensures
            match self {
                Entry::Vacant(_) => default.ensures((&self.held_key(),), *r),
                Entry::Occupied(e) => *r == e.value(),
            },
            final(self.backing())@ == self.filled(*final(r)),
    {
        match self {
            Entry::Vacant(entry) => {
                let v = default(entry.key());
                entry.insert(v)
            },
            Entry::Occupied(entry) => entry.into_mut(),
        }
    }

    /// The key that the entry was made for.
    pub fn key(&self) -> (r: &K)
        ensures
            *r == self.held_key(),
    {
        match self {
            Entry::Vacant(entry) => entry.key(),
            Entry::Occupied(entry) => entry.key(),
        }
    }

    /// Runs `f` on the value of an occupied entry; a vacant entry is returned
    /// as it is and `f` is not run. Never inserts, never changes the variant.
    pub fn and_modify<F: FnOnce(&mut V)>(self, f: F) -> (r: Entry<'a, K, V>)
        requires
            self.wf(),
            self is Occupied ==> forall|m: &mut V| *m == self->Occupied_0.value() ==> f.requires((m,)),
        ensures
            r.wf(),
            r.held_key() == self.held_key(),
            *final(r.backing()) == *final(self.backing()),
            match (self, r) {
                (Entry::Vacant(_), Entry::Vacant(_)) => *r.backing() == *self.backing(),
                (Entry::Occupied(e), Entry::Occupied(n)) => {
                    &&& n.pos() == e.pos()
                    &&& exists|m: &mut V|
                        {
                            &&& *m == e.value()
                            &&& f.ensures((m,), ())
                            &&& n.backing()@ == set_value(e.backing()@, e.pos(), *final(m))
                        }
                },
                _ => false,
            },
    {
        match self {
            Entry::Vacant(entry) => Entry::Vacant(entry),
            Entry::Occupied(mut entry) => {
                f(entry.get_mut());
                Entry::Occupied(entry)
            },
        }
    }
}

impl<'a, K: 'a, V: 'a + Default> Entry<'a, K, V> {
    /// Like `or_insert`, with `V::default()` as the value if the entry is vacant.
    pub fn or_default(self) -> (r: &'a mut V)
        requires
            self.wf(),
        ensures
            match self {
                Entry::Vacant(_) => call_ensures(V::default, (), *r),
                Entry::Occupied(e) => *r == e.value(),
            },
            final(self.backing())@ == self.filled(*final(r)),
    {
        self.or_insert_with(V::default)
    }
}

} // verus!
