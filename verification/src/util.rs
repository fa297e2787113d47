//! Small ownership helpers.
use std::sync::Arc;
use vstd::prelude::*;

verus! {

/// Moves a freshly built value behind a shared-ownership pointer in one call,
/// so scene construction can read as a single expression.
pub trait NewAsArc: Sized {
    /// Wraps the value in an `Arc`.
    fn as_arc(self) -> (r: Arc<Self>)
        ensures
            r == self,
    ;
}

impl<T> NewAsArc for T {
    fn as_arc(self) -> (r: Arc<T>) {
        Arc::new(self)
    }
}

/// Relies on the standard library's `Clone` for `Arc`: cloning an `Arc`
/// yields a second handle to the same allocation, so the value seen through
/// the clone is the value seen through the original.
#[verifier::external_body]
pub(crate) fn arc_clone<T>(v: &Arc<T>) -> (r: Arc<T>)
    ensures
        r == *v,
{
    v.clone()
}

} // verus!
