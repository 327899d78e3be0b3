//! A lazy, finite, restartable iterator over an immutable array. A fresh
//! iterator reads the live backing collection from its start each time.

use vstd::prelude::*;

use crate::foundation::ns_array::Array;

verus! {

/// An iterator over an `Array`: the borrowed collection and the position
/// of the next element to hand out.
pub struct Iter<'a, T> {
    array: &'a Array<T>,
    index: usize,
}

impl<'a, T> Iter<'a, T> {
    /// The elements of the backing collection.
    pub closed spec fn array_view(&self) -> Seq<T> {
        self.array@
    }

    /// The index of the next element to hand out.
    pub closed spec fn position(&self) -> int {
        self.index as int
    }

    /// A fresh iterator at the collection's start.
    pub fn new(array: &'a Array<T>) -> (r: Iter<'a, T>)
        ensures
            r.array_view() == array@,
            r.position() == 0,
    {
        Iter { array, index: 0 }
    }

    /// Hands out the next element, or nothing once the collection's
    /// current count is exhausted.
    pub fn next(&mut self) -> (r: Option<&'a T>)
        ensures
            final(self).array_view() == old(self).array_view(),
            old(self).position() < old(self).array_view().len() ==> {
                &&& r is Some
                &&& *r->0 == old(self).array_view()[old(self).position()]
                &&& final(self).position() == old(self).position() + 1
            },
            old(self).position() >= old(self).array_view().len() ==> {
                &&& r is None
                &&& final(self).position() == old(self).position()
            },
    {
        if self.index < self.array.count() {
            let item = self.array.object_at(self.index);
            self.index = self.index + 1;
            Some(item)
        } else {
            None
        }
    }
}

} // verus!
