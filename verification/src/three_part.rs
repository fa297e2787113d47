//! The homogeneous four-part tuple underlying points and vectors.
//!
//! The fourth component tags the tuple: one whole marks a position, zero marks
//! a displacement. The tag is what makes affine matrix application correct:
//! translating a position moves it, translating a displacement does not.
use vstd::prelude::*;

use crate::fuzzy_comparison::FuzzyPartialEq;
use crate::scalar::{fx_fuzzy_eq, Scalar};

verus! {

/// An immutable homogeneous four-part tuple.
#[derive(Clone, Copy, Debug)]
pub struct ThreePart(pub Scalar, pub Scalar, pub Scalar, pub Scalar);

impl ThreePart {
    /// First spatial component.
    pub open spec fn a(&self) -> int {
        self.0@
    }

    /// Second spatial component.
    pub open spec fn b(&self) -> int {
        self.1@
    }

    /// Third spatial component.
    pub open spec fn c(&self) -> int {
        self.2@
    }

    /// Homogeneous tag component.
    pub open spec fn w(&self) -> int {
        self.3@
    }

    /// All four components agree within the tolerance.
    pub open spec fn fuzzy_eq_parts(&self, other: &ThreePart) -> bool {
        &&& fx_fuzzy_eq(self.a(), other.a())
        &&& fx_fuzzy_eq(self.b(), other.b())
        &&& fx_fuzzy_eq(self.c(), other.c())
        &&& fx_fuzzy_eq(self.w(), other.w())
    }
}

impl FuzzyPartialEq<ThreePart> for ThreePart {
    open spec fn fuzzy_spec(self, other: ThreePart) -> bool {
        self.fuzzy_eq_parts(&other)
    }

    fn fuzzy_eq(self, other: ThreePart) -> (r: bool) {
        self.0.fuzzy_eq_scalar(other.0) && self.1.fuzzy_eq_scalar(other.1)
            && self.2.fuzzy_eq_scalar(other.2) && self.3.fuzzy_eq_scalar(other.3)
    }
}

impl FuzzyPartialEq<Scalar> for Scalar {
    open spec fn fuzzy_spec(self, other: Scalar) -> bool {
        fx_fuzzy_eq(self@, other@)
    }

    fn fuzzy_eq(self, other: Scalar) -> (r: bool) {
        self.fuzzy_eq_scalar(other)
    }
}

} // verus!
