//! Fuzzy comparison of geometric quantities.
//!
//! Repeated transform composition drifts by a few units, so geometric
//! equality is tested within a tolerance rather than exactly. Every type that
//! implements the trait also names, as a spec function, exactly which pairs it
//! accepts as equal.
use vstd::prelude::*;

verus! {

/// Equality within the geometric tolerance.
pub trait FuzzyPartialEq<T>: Sized {
    /// Which pairs the comparison accepts.
    spec fn fuzzy_spec(self, other: T) -> bool;

    /// Compares within the tolerance.
    fn fuzzy_eq(self, other: T) -> (r: bool)
        ensures
            r == self.fuzzy_spec(other),
    ;
}

} // verus!
