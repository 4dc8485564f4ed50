use vstd::prelude::*;

verus! {

/// The keys of an association list, front to back, by reference.
pub struct Keys<'a, K: 'a, V: 'a> {
    pairs: &'a Vec<(K, V)>,
    pos: usize,
}

/// The values of an association list, front to back, by reference.
pub struct Values<'a, K: 'a, V: 'a> {
    pairs: &'a Vec<(K, V)>,
    pos: usize,
}

/// The keys of an association list, front to back, taken by value.
pub struct IntoKeys<K, V> {
    /// The pairs not yet handed out, last first.
    rev: Vec<(K, V)>,
}

/// The values of an association list, front to back, taken by value.
pub struct IntoValues<K, V> {
    /// The pairs not yet handed out, last first.
    rev: Vec<(K, V)>,
}

/// The values of an association list, front to back, by mutable reference.
pub struct ValuesMut<'a, K: 'a, V: 'a> {
    /// The pairs not yet handed out; always present between calls.
    rest: Option<&'a mut [(K, V)]>,
}

/// The keys of `pairs`, in order.
pub open spec fn keys_of<K, V>(pairs: Seq<(K, V)>) -> Seq<K> {
    pairs.map_values(|p: (K, V)| p.0)
}

/// The values of `pairs`, in order.
pub open spec fn values_of<K, V>(pairs: Seq<(K, V)>) -> Seq<V> {
    pairs.map_values(|p: (K, V)| p.1)
}

impl<'a, K: 'a, V: 'a> Keys<'a, K, V> {
    #[verifier::type_invariant]
    spec fn inv(&self) -> bool {
        self.pos <= self.pairs@.len()
    }

    /// The keys not yet handed out.
    pub closed spec fn remaining(&self) -> Seq<K> {
        keys_of(self.pairs@.subrange(self.pos as int, self.pairs@.len() as int))
    }

    pub(crate) fn new(pairs: &'a Vec<(K, V)>) -> (r: Self)
        ensures
            r.remaining() == keys_of(pairs@),
    {
        assert(pairs@.subrange(0, pairs@.len() as int) =~= pairs@);
        Keys { pairs, pos: 0 }
    }

    /// The next key, or `None` once all have been handed out.
    pub fn next(&mut self) -> (r: Option<&'a K>)
        ensures
            match r {
                Some(k) => {
                    &&& old(self).remaining().len() > 0
                    &&& *k == old(self).remaining()[0]
                    &&& final(self).remaining() == old(self).remaining().drop_first()
                },
                None => {
                    &&& old(self).remaining().len() == 0
                    &&& final(self).remaining() == old(self).remaining()
                },
            },
    {
        proof {
            use_type_invariant(&*self);
        }
        if self.pos < self.pairs.len() {
            let k = &self.pairs[self.pos].0;
            let ghost before = self.pairs@.subrange(self.pos as int, self.pairs@.len() as int);
            self.pos = self.pos + 1;
            assert(self.pairs@.subrange(self.pos as int, self.pairs@.len() as int) =~= before.drop_first());
            Some(k)
        } else {
            None
        }
    }
}

impl<'a, K: 'a, V: 'a> Clone for Keys<'a, K, V> {
    fn clone(&self) -> (r: Self)
        ensures
            r.remaining() == self.remaining(),
    {
        proof {
            use_type_invariant(self);
        }
        Keys { pairs: self.pairs, pos: self.pos }
    }
}

impl<'a, K: 'a, V: 'a> Values<'a, K, V> {
    #[verifier::type_invariant]
    spec fn inv(&self) -> bool {
        self.pos <= self.pairs@.len()
    }

    /// The values not yet handed out.
    pub closed spec fn remaining(&self) -> Seq<V> {
        values_of(self.pairs@.subrange(self.pos as int, self.pairs@.len() as int))
    }

    pub(crate) fn new(pairs: &'a Vec<(K, V)>) -> (r: Self)
        ensures
            r.remaining() == values_of(pairs@),
    {
        assert(pairs@.subrange(0, pairs@.len() as int) =~= pairs@);
        Values { pairs, pos: 0 }
    }

    /// The next value, or `None` once all have been handed out.
    pub fn next(&mut self) -> (r: Option<&'a V>)
        ensures
            match r {
                Some(v) => {
                    &&& old(self).remaining().len() > 0
                    &&& *v == old(self).remaining()[0]
                    &&& final(self).remaining() == old(self).remaining().drop_first()
                },
                None => {
                    &&& old(self).remaining().len() == 0
                    &&& final(self).remaining() == old(self).remaining()
                },
            },
    {
        proof {
            use_type_invariant(&*self);
        }
        if self.pos < self.pairs.len() {
            let v = &self.pairs[self.pos].1;
            let ghost before = self.pairs@.subrange(self.pos as int, self.pairs@.len() as int);
            self.pos = self.pos + 1;
            assert(self.pairs@.subrange(self.pos as int, self.pairs@.len() as int) =~= before.drop_first());
            Some(v)
        } else {
            None
        }
    }
}

impl<'a, K: 'a, V: 'a> Clone for Values<'a, K, V> {
    fn clone(&self) -> (r: Self)
        ensures
            r.remaining() == self.remaining(),
    {
        proof {
            use_type_invariant(self);
        }
        Values { pairs: self.pairs, pos: self.pos }
    }
}

impl<'a, K: 'a, V: 'a> ValuesMut<'a, K, V> {
    /// The borrowed pairs not yet handed out, if the view holds them.
    pub closed spec fn slot(&self) -> Option<&'a mut [(K, V)]> {
        self.rest
    }

    /// The view holds its pairs, as it does between calls.
    pub open spec fn wf(&self) -> bool {
        self.slot() is Some
    }

    /// The borrowed pairs not yet handed out.
    pub open spec fn slice(&self) -> &'a mut [(K, V)] {
        self.slot()->0
    }

    /// The values not yet handed out.
    pub open spec fn remaining(&self) -> Seq<V> {
        values_of(self.slice()@)
    }

    pub(crate) fn new(pairs: &'a mut Vec<(K, V)>) -> (r: Self)
        ensures
            r.wf(),
            r.slice()@ == old(pairs)@,
            final(r.slice())@ == final(pairs)@,
    {
        ValuesMut { rest: Some(pairs.as_mut_slice()) }
    }

    /// The next value, or `None` once all have been handed out. What is
    /// written through the value ends up in the pair it came from.
    pub fn next(&mut self) -> (r: Option<&'a mut V>)
        requires
            old(self).wf(),
        ensures
            final(self).wf(),
            match r {
                Some(m) => {
                    &&& old(self).slice()@.len() > 0
                    &&& *m == old(self).slice()@[0].1
                    &&& final(self).slice()@ == old(self).slice()@.drop_first()
                    &&& final(old(self).slice())@ == seq![(old(self).slice()@[0].0, *final(m))]
                        + final(final(self).slice())@
                },
                None => {
                    &&& old(self).slice()@.len() == 0
                    &&& final(self).slice()@ == old(self).slice()@
                    &&& final(old(self).slice())@ == final(final(self).slice())@
                },
            },
    {
        let s = self.rest.take().unwrap();
        if s.len() == 0 {
            self.rest = Some(s);
            None
        } else {
            let (first, tail) = s.split_at_mut(1);
            self.rest = Some(tail);
            Some(&mut first[0].1)
        }
    }
}

/// The same items, last first.
fn reversed<T>(v: Vec<T>) -> (r: Vec<T>)
    ensures
        r@ == v@.reverse(),
{
    let ghost orig = v@;
    let mut src = v;
    let mut rev: Vec<T> = Vec::new();
    while src.len() > 0
        invariant
            src@ + rev@.reverse() == orig,
        decreases src@.len(),
    {
        let ghost s0 = src@;
        let ghost r0 = rev@;
        match src.pop() {
            Some(x) => {
                rev.push(x);
                assert(rev@.reverse() =~= seq![x] + r0.reverse());
                assert(s0 =~= src@.push(x));
                assert(src@ + rev@.reverse() =~= s0 + r0.reverse());
            },
            None => {},
        }
    }
    assert(rev@.reverse().reverse() =~= rev@);
    assert(orig.reverse() =~= rev@) by {
        assert(src@ + rev@.reverse() =~= rev@.reverse());
    }
    rev
}

impl<K, V> IntoKeys<K, V> {
    /// The keys not yet handed out.
    pub closed spec fn remaining(&self) -> Seq<K> {
        keys_of(self.rev@.reverse())
    }

    pub(crate) fn new(pairs: Vec<(K, V)>) -> (r: Self)
        ensures
            r.remaining() == keys_of(pairs@),
    {
        let ghost p = pairs@;
        let rev = reversed(pairs);
        assert(rev@.reverse() =~= p);
        IntoKeys { rev }
    }

    /// The next key, or `None` once all have been handed out.
    pub fn next(&mut self) -> (r: Option<K>)
        ensures
            match r {
                Some(k) => {
                    &&& old(self).remaining().len() > 0
                    &&& k == old(self).remaining()[0]
                    &&& final(self).remaining() == old(self).remaining().drop_first()
                },
                None => {
                    &&& old(self).remaining().len() == 0
                    &&& final(self).remaining() == old(self).remaining()
                },
            },
    {
        let ghost r0 = self.rev@;
        match self.rev.pop() {
            Some(p) => {
                assert(r0 =~= self.rev@.push(p));
                assert(r0.reverse() =~= seq![p] + self.rev@.reverse());
                assert(keys_of(self.rev@.reverse()) =~= keys_of(r0.reverse()).drop_first());
                Some(p.0)
            },
            None => None,
        }
    }
}

impl<K, V> IntoValues<K, V> {
    /// The values not yet handed out.
    pub closed spec fn remaining(&self) -> Seq<V> {
        values_of(self.rev@.reverse())
    }

    pub(crate) fn new(pairs: Vec<(K, V)>) -> (r: Self)
        ensures
            r.remaining() == values_of(pairs@),
    {
        let ghost p = pairs@;
        let rev = reversed(pairs);
        assert(rev@.reverse() =~= p);
        IntoValues { rev }
    }

    /// The next value, or `None` once all have been handed out.
    pub fn next(&mut self) -> (r: Option<V>)
        ensures
            match r {
                Some(v) => {
                    &&& old(self).remaining().len() > 0
                    &&& v == old(self).remaining()[0]
                    &&& final(self).remaining() == old(self).remaining().drop_first()
                },
                None => {
                    &&& old(self).remaining().len() == 0
                    &&& final(self).remaining() == old(self).remaining()
                },
            },
    {
        let ghost r0 = self.rev@;
        match self.rev.pop() {
            Some(p) => {
                assert(r0 =~= self.rev@.push(p));
                assert(r0.reverse() =~= seq![p] + self.rev@.reverse());
                assert(values_of(self.rev@.reverse()) =~= values_of(r0.reverse()).drop_first());
                Some(p.1)
            },
            None => None,
        }
    }
}

} // verus!
