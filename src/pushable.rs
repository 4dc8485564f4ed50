//! Sequences that grow at the back and give mutable access to their last item.

use std::collections::VecDeque;
use vstd::prelude::*;

verus! {

/// A sequence that can be appended to and whose last item can be changed in place.
pub trait Pushable<T> {
    /// The items, front to back.
    spec fn items(&self) -> Seq<T>;

    /// Appends `t` at the back.
    fn push(&mut self, t: T)
        ensures
            final(self).items() == old(self).items().push(t),
    ;

    /// Mutable access to the last item, or `None` when there is none.
    fn last_mut(&mut self) -> (r: Option<&mut T>)
        ensures
            match r {
                Some(x) => {
                    &&& old(self).items().len() > 0
                    &&& *x == old(self).items().last()
                    &&& final(self).items() == old(self).items().update(
                        old(self).items().len() - 1,
                        *final(x),
                    )
                },
                None => {
                    &&& old(self).items().len() == 0
                    &&& final(self).items() == old(self).items()
                },
            },
    ;
}

impl<T> Pushable<T> for Vec<T> {
    open spec fn items(&self) -> Seq<T> {
        self@
    }

    fn push(&mut self, t: T) {
        Vec::push(self, t)
    }

    fn last_mut(&mut self) -> (r: Option<&mut T>) {
        let n = self.len();
        if n == 0 {
            None
        } else {
            Some(&mut self[n - 1])
        }
    }
}

/// Relies on `VecDeque::back_mut`: mutable access to the back item, or `None`
/// when the deque is empty.
#[verifier::external_body]
fn deque_back_mut<T>(d: &mut VecDeque<T>) -> (r: Option<&mut T>)
    ensures
        match r {
            Some(x) => {
                &&& old(d)@.len() > 0
                &&& *x == old(d)@.last()
                &&& final(d)@ == old(d)@.update(old(d)@.len() - 1, *final(x))
            },
            None => {
                &&& old(d)@.len() == 0
                &&& final(d)@ == old(d)@
            },
        },
{
    d.back_mut()
}

impl<T> Pushable<T> for VecDeque<T> {
    open spec fn items(&self) -> Seq<T> {
        self@
    }

    fn push(&mut self, t: T) {
        VecDeque::push_back(self, t)
    }

    fn last_mut(&mut self) -> (r: Option<&mut T>) {
        deque_back_mut(self)
    }
}

} // verus!
