//! The indexed collection wrappers: an immutable array and its mutable
//! counterpart, projecting a native ordered collection as a typed surface.
//! Insertion order is part of the view.

use vstd::prelude::*;

pub mod iter;

verus! {

/// An immutable ordered collection of bridged objects. Its view is the
/// sequence of its elements, in insertion order.
pub struct Array<T> {
    items: Vec<T>,
}

impl<T> View for Array<T> {
    type V = Seq<T>;

    closed spec fn view(&self) -> Seq<T> {
        self.items@
    }
}

impl<T> Array<T> {
    /// An empty array.
    pub fn new() -> (r: Array<T>)
        ensures
            r@ == Seq::<T>::empty(),
    {
        Array { items: Vec::new() }
    }

    /// An array holding the buffer's elements in order.
    pub fn from_vec(items: Vec<T>) -> (r: Array<T>)
        ensures
            r@ == items@,
    {
        Array { items }
    }

    /// An immutable snapshot of a mutable array's current elements.
    pub fn from_mutable(source: MutableArray<T>) -> (r: Array<T>)
        ensures
            r@ == source@,
    {
        Array { items: source.into_vec() }
    }

    /// How many elements the array holds.
    pub fn count(&self) -> (r: usize)
        ensures
            r == self@.len(),
    {
        self.items.len()
    }

    /// The element at `index`. An index at or past the count is a
    /// programmer error, excluded here as the native bounds trap is.
    pub fn object_at(&self, index: usize) -> (r: &T)
        requires
            index < self@.len(),
        ensures
            *r == self@[index as int],
    {
        &self.items[index]
    }

    /// A read-only view of all elements, in order.
    pub fn all_objects(&self) -> (r: &Vec<T>)
        ensures
            r@ == self@,
    {
        &self.items
    }

    /// A fresh lazy iterator over the live collection, starting at the
    /// first element.
    pub fn iter(&self) -> (r: iter::Iter<'_, T>)
        ensures
            r.array_view() == self@,
            r.position() == 0,
    {
        iter::Iter::new(self)
    }
}

/// A mutable ordered collection of bridged objects: elements are added at
/// the end and removed by index, in place.
pub struct MutableArray<T> {
    items: Vec<T>,
}

impl<T> View for MutableArray<T> {
    type V = Seq<T>;

    closed spec fn view(&self) -> Seq<T> {
        self.items@
    }
}

impl<T> MutableArray<T> {
    /// An empty mutable array.
    pub fn new() -> (r: MutableArray<T>)
        ensures
            r@ == Seq::<T>::empty(),
    {
        MutableArray { items: Vec::new() }
    }

    /// An empty mutable array with room reserved for the given number of
    /// elements. The reservation is advisory: the contents start empty.
    pub fn with_capacity(capacity: usize) -> (r: MutableArray<T>)
        ensures
            r@ == Seq::<T>::empty(),
    {
        MutableArray { items: Vec::with_capacity(capacity) }
    }

    /// How many elements the array holds.
    pub fn count(&self) -> (r: usize)
        ensures
            r == self@.len(),
    {
        self.items.len()
    }

    /// The element at `index`. An index at or past the count is a
    /// programmer error, excluded here as the native bounds trap is.
    pub fn object_at(&self, index: usize) -> (r: &T)
        requires
            index < self@.len(),
        ensures
            *r == self@[index as int],
    {
        &self.items[index]
    }

    /// Appends an element; every alias of the collection sees it at once.
    pub fn add(&mut self, item: T)
        ensures
            final(self)@ == old(self)@.push(item),
    {
        self.items.push(item);
    }

    /// Removes and returns the element at `index`, shifting what follows
    /// it down. An index at or past the count is a programmer error,
    /// excluded here.
    pub fn remove_at(&mut self, index: usize) -> (r: T)
        requires
            index < old(self)@.len(),
        ensures
            final(self)@ == old(self)@.remove(index as int),
            r == old(self)@[index as int],
    {
        self.items.remove(index)
    }

    /// Empties the array.
    pub fn remove_all(&mut self)
        ensures
            final(self)@ == Seq::<T>::empty(),
    {
        self.items = Vec::new();
    }

    /// Takes the array apart into its element buffer.
    pub(crate) fn into_vec(self) -> (r: Vec<T>)
        ensures
            r@ == self@,
    {
        let MutableArray { items } = self;
        items
    }
}

/// Law: appending an element to a mutable array and then asking for the
/// object at index `count() - 1` gives that element back.
pub proof fn lemma_added_object_is_last<T>(s: Seq<T>, x: T)
    ensures
        s.push(x).len() == s.len() + 1,
        s.push(x)[s.push(x).len() - 1] == x,
{
}

} // verus!
