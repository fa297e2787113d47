//! Positions in space: homogeneous tuples tagged with one whole.
use vstd::prelude::*;

use crate::fuzzy_comparison::FuzzyPartialEq;
use crate::scalar::{fx_add, fx_sub, Scalar, SCALE};
use crate::three_part::ThreePart;
use crate::vector::Vector;

verus! {

/// A position in space.
#[derive(Clone, Copy, Debug)]
pub struct Point(pub ThreePart);

impl Point {
    /// First spatial component.
    pub open spec fn x(&self) -> int {
        self.0.a()
    }

    /// Second spatial component.
    pub open spec fn y(&self) -> int {
        self.0.b()
    }

    /// Third spatial component.
    pub open spec fn z(&self) -> int {
        self.0.c()
    }

    /// Homogeneous tag component.
    pub open spec fn w(&self) -> int {
        self.0.w()
    }

    /// A point carries the unit tag.
    pub open spec fn is_point(&self) -> bool {
        self.w() == SCALE as int
    }

    /// The origin.
    pub fn origin() -> (r: Point)
        ensures
            r.x() == 0,
            r.y() == 0,
            r.z() == 0,
            r.w() == SCALE as int,
    {
        Point(ThreePart(Scalar::zero(), Scalar::zero(), Scalar::zero(), Scalar::one()))
    }

    /// The point with the given components and the unit tag.
    pub fn new(x: Scalar, y: Scalar, z: Scalar) -> (r: Point)
        ensures
            r.x() == x@,
            r.y() == y@,
            r.z() == z@,
            r.w() == SCALE as int,
    {
        Point(ThreePart(x, y, z, Scalar::one()))
    }

    /// The point displaced by a vector.
    pub fn add(self, rhs: Vector) -> (r: Point)
        ensures
            r.x() == fx_add(self.x(), rhs.x()),
            r.y() == fx_add(self.y(), rhs.y()),
            r.z() == fx_add(self.z(), rhs.z()),
            r.w() == SCALE as int,
    {
        Point::new(self.0.0.add(rhs.0.0), self.0.1.add(rhs.0.1), self.0.2.add(rhs.0.2))
    }

    /// The displacement from another point to this one.
    pub fn sub(self, rhs: Point) -> (r: Vector)
        ensures
            r.x() == fx_sub(self.x(), rhs.x()),
            r.y() == fx_sub(self.y(), rhs.y()),
            r.z() == fx_sub(self.z(), rhs.z()),
            r.w() == 0,
    {
        Vector::new(self.0.0.sub(rhs.0.0), self.0.1.sub(rhs.0.1), self.0.2.sub(rhs.0.2))
    }

    /// The point displaced against a vector.
    pub fn sub_vector(self, rhs: Vector) -> (r: Point)
        ensures
            r.x() == fx_sub(self.x(), rhs.x()),
            r.y() == fx_sub(self.y(), rhs.y()),
            r.z() == fx_sub(self.z(), rhs.z()),
            r.w() == SCALE as int,
    {
        Point::new(self.0.0.sub(rhs.0.0), self.0.1.sub(rhs.0.1), self.0.2.sub(rhs.0.2))
    }
}

impl FuzzyPartialEq<Point> for Point {
    open spec fn fuzzy_spec(self, other: Point) -> bool {
        self.0.fuzzy_eq_parts(&other.0)
    }

    fn fuzzy_eq(self, other: Point) -> (r: bool) {
        self.0.fuzzy_eq(other.0)
    }
}

} // verus!
