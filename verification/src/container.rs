//! Collections whose elements a matcher can visit in order.
use vstd::prelude::*;

verus! {

/// A finite collection that hands out its elements by position.
pub trait Container {
    /// The type of the elements.
    type Item;

    /// The elements, in the order in which they are visited.
    spec fn items(&self) -> Seq<Self::Item>;

    /// The number of elements.
    fn count(&self) -> (n: usize)
        ensures
            n == self.items().len(),
    ;

    /// The element at position `i`.
    fn item(&self, i: usize) -> (r: &Self::Item)
        requires
            i < self.items().len(),
        ensures
            *r == self.items()[i as int],
    ;
}

impl<T> Container for Vec<T> {
    type Item = T;

    open spec fn items(&self) -> Seq<T> {
        self@
    }

    fn count(&self) -> (n: usize) {
        self.len()
    }

    fn item(&self, i: usize) -> (r: &T) {
        &self[i]
    }
}

impl<T> Container for [T] {
    type Item = T;

    open spec fn items(&self) -> Seq<T> {
        self@
    }

    fn count(&self) -> (n: usize) {
        self.len()
    }

    fn item(&self, i: usize) -> (r: &T) {
        &self[i]
    }
}

impl<T, const N: usize> Container for [T; N] {
    type Item = T;

    open spec fn items(&self) -> Seq<T> {
        self@
    }

    fn count(&self) -> (n: usize) {
        N
    }

    fn item(&self, i: usize) -> (r: &T) {
        &self[i]
    }
}

} // verus!
