//! A one-slot cell whose value can be replaced after construction.
//!
//! A scene that wants to stamp intersections with a reference to itself needs
//! a slot that is filled in after the surrounding structure exists; this cell
//! is that slot, holding a plain value such as an arena index.
use vstd::prelude::*;

verus! {

/// A single mutable slot.
#[derive(Debug)]
pub struct WeakCell<T> {
    value: T,
}

impl<T> WeakCell<T> {
    /// The value the cell currently holds.
    pub closed spec fn stored(&self) -> T {
        self.value
    }

    /// Creates a new `WeakCell`.
    pub fn new(t: T) -> (r: WeakCell<T>)
        ensures
            r.stored() == t,
    {
        WeakCell { value: t }
    }

    /// Stores a new value in the `WeakCell`, returning the previous
    /// value.
    pub fn set(&mut self, t: T) -> (r: T)
        ensures
            final(self).stored() == t,
            r == old(self).stored(),
    {
        let mut slot = t;
        core::mem::swap(&mut self.value, &mut slot);
        slot
    }
}

impl<T: Copy> WeakCell<T> {
    /// Returns a copy of the value stored by the `WeakCell`.
    pub fn get(&self) -> (r: T)
        ensures
            r == self.stored(),
    {
        self.value
    }
}

} // verus!
