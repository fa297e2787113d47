//! Rotation angles, carried by their sine and cosine.
//!
//! The trigonometric evaluation of an angle happens outside the library; a
//! rotation enters it as the pair of scalars that the rotation matrices
//! actually consume. The conversion from degrees or radians to this pair is
//! the caller's concern.
use vstd::prelude::*;

use crate::scalar::Scalar;

verus! {

/// An angle, represented by its sine and cosine.
#[derive(Clone, Copy, Debug)]
pub struct Rotation {
    pub sin: Scalar,
    pub cos: Scalar,
}

impl Rotation {
    /// The rotation with the given sine and cosine.
    pub fn new(sin: Scalar, cos: Scalar) -> (r: Rotation)
        ensures
            r.sin == sin,
            r.cos == cos,
    {
        Rotation { sin, cos }
    }
}

} // verus!
