//! Displacements and directions: homogeneous tuples tagged with zero.
use vstd::prelude::*;

use crate::fuzzy_comparison::FuzzyPartialEq;
use crate::scalar::{
    fx_add, fx_div, fx_fuzzy_eq, fx_mul, fx_neg, fx_sub, iabs, lemma_sqrt_floor_bounds, sat,
    sqrt_floor, tdiv, Scalar, MAX_UNITS, SCALE,
};
use crate::three_part::ThreePart;

verus! {

/// A displacement or direction in space.
#[derive(Clone, Copy, Debug)]
pub struct Vector(pub ThreePart);

/// The dot product of two component triples, summed left to right.
pub open spec fn dot3(ax: int, ay: int, az: int, bx: int, by: int, bz: int) -> int {
    fx_add(fx_add(fx_mul(ax, bx), fx_mul(ay, by)), fx_mul(az, bz))
}

/// The squared length of a component triple.
pub open spec fn sqr_mag3(x: int, y: int, z: int) -> int {
    dot3(x, y, z, x, y, z)
}

/// The length of a component triple, taken at full precision: the integer
/// square root of the exact sum of squared unit counts, saturated into
/// range. Working on the raw squares, rather than on the truncated scalar
/// squares, keeps the length faithful even for components well below one.
pub open spec fn mag3(x: int, y: int, z: int) -> int {
    sat(sqrt_floor(x * x + y * y + z * z))
}

/// One component of a component triple scaled to unit length.
pub open spec fn norm3_c(c: int, x: int, y: int, z: int) -> int {
    fx_div(c, mag3(x, y, z))
}

/// The components of a vector mirrored across a surface normal.
pub open spec fn reflect3(vx: int, vy: int, vz: int, nx: int, ny: int, nz: int) -> (
    int,
    int,
    int,
) {
    let d = dot3(vx, vy, vz, nx, ny, nz);
    (
        fx_sub(vx, fx_mul(fx_mul(nx, d), 2 * SCALE as int)),
        fx_sub(vy, fx_mul(fx_mul(ny, d), 2 * SCALE as int)),
        fx_sub(vz, fx_mul(fx_mul(nz, d), 2 * SCALE as int)),
    )
}

/// The components of the cross product of two component triples.
pub open spec fn cross3(ax: int, ay: int, az: int, bx: int, by: int, bz: int) -> (int, int, int) {
    (
        fx_sub(fx_mul(ay, bz), fx_mul(az, by)),
        fx_sub(fx_mul(az, bx), fx_mul(ax, bz)),
        fx_sub(fx_mul(ax, by), fx_mul(ay, bx)),
    )
}

/// The squared length of a vector, the dot product with itself.
pub open spec fn sqr_mag_spec(v: Vector) -> int {
    dot_spec(v, v)
}

/// The length of a vector.
pub open spec fn mag_spec(v: Vector) -> int {
    mag3(v.x(), v.y(), v.z())
}

/// The dot product of two vectors, summed left to right.
pub open spec fn dot_spec(a: Vector, b: Vector) -> int {
    dot3(a.x(), a.y(), a.z(), b.x(), b.y(), b.z())
}

impl Vector {
    /// First spatial component.
    pub open spec fn x(&self) -> int {
        self.0.a()
    }

    /// Second spatial component.
    pub open spec fn y(&self) -> int {
        self.0.b()
    }

    /// Third spatial component.
    pub open spec fn z(&self) -> int {
        self.0.c()
    }

    /// Homogeneous tag component.
    pub open spec fn w(&self) -> int {
        self.0.w()
    }

    /// A vector carries the zero tag.
    pub open spec fn is_vector(&self) -> bool {
        self.w() == 0
    }

    /// The zero displacement.
    pub fn origin() -> (r: Vector)
        ensures
            r.x() == 0,
            r.y() == 0,
            r.z() == 0,
            r.w() == 0,
    {
        Vector(ThreePart(Scalar::zero(), Scalar::zero(), Scalar::zero(), Scalar::zero()))
    }

    /// The vector with the given components and the zero tag.
    pub fn new(x: Scalar, y: Scalar, z: Scalar) -> (r: Vector)
        ensures
            r.x() == x@,
            r.y() == y@,
            r.z() == z@,
            r.w() == 0,
    {
        Vector(ThreePart(x, y, z, Scalar::zero()))
    }

    /// The squared length: the dot product with itself.
    pub fn sqr_magnitude(&self) -> (r: Scalar)
        ensures
            r@ == sqr_mag_spec(*self),
    {
        self.dot(*self)
    }

    /// The length, computed at full precision from the exact sum of
    /// squared unit counts.
    pub fn magnitude(&self) -> (r: Scalar)
        ensures
            r@ == mag_spec(*self),
    {
        crate::scalar::mag_of_units(self.0.0.units(), self.0.1.units(), self.0.2.units())
    }

    /// The vector scaled to unit length; the zero vector stays zero.
    pub fn normalize(&self) -> (r: Vector)
        ensures
            r.x() == fx_div(self.x(), mag_spec(*self)),
            r.y() == fx_div(self.y(), mag_spec(*self)),
            r.z() == fx_div(self.z(), mag_spec(*self)),
            r.w() == 0,
    {
        self.div_by(self.magnitude())
    }

    /// Component-wise sum.
    pub fn add(self, rhs: Vector) -> (r: Vector)
        ensures
            r.x() == fx_add(self.x(), rhs.x()),
            r.y() == fx_add(self.y(), rhs.y()),
            r.z() == fx_add(self.z(), rhs.z()),
            r.w() == 0,
    {
        Vector::new(self.0.0.add(rhs.0.0), self.0.1.add(rhs.0.1), self.0.2.add(rhs.0.2))
    }

    /// Component-wise difference.
    pub fn sub(self, rhs: Vector) -> (r: Vector)
        ensures
            r.x() == fx_sub(self.x(), rhs.x()),
            r.y() == fx_sub(self.y(), rhs.y()),
            r.z() == fx_sub(self.z(), rhs.z()),
            r.w() == 0,
    {
        Vector::new(self.0.0.sub(rhs.0.0), self.0.1.sub(rhs.0.1), self.0.2.sub(rhs.0.2))
    }

    /// The vector scaled by a scalar.
    pub fn scale(self, rhs: Scalar) -> (r: Vector)
        ensures
            r.x() == fx_mul(self.x(), rhs@),
            r.y() == fx_mul(self.y(), rhs@),
            r.z() == fx_mul(self.z(), rhs@),
            r.w() == 0,
    {
        Vector::new(self.0.0.mul(rhs), self.0.1.mul(rhs), self.0.2.mul(rhs))
    }

    /// The vector divided by a scalar; division by zero yields zero.
    pub fn div_by(self, rhs: Scalar) -> (r: Vector)
        ensures
            r.x() == fx_div(self.x(), rhs@),
            r.y() == fx_div(self.y(), rhs@),
            r.z() == fx_div(self.z(), rhs@),
            r.w() == 0,
    {
        Vector::new(self.0.0.div(rhs), self.0.1.div(rhs), self.0.2.div(rhs))
    }

    /// The vector pointing the opposite way.
    pub fn neg(self) -> (r: Vector)
        ensures
            r.x() == fx_neg(self.x()),
            r.y() == fx_neg(self.y()),
            r.z() == fx_neg(self.z()),
            r.w() == 0,
    {
        Vector::new(self.0.0.neg(), self.0.1.neg(), self.0.2.neg())
    }

    /// Dot product.
    pub fn dot(self, rhs: Vector) -> (r: Scalar)
        ensures
            r@ == dot_spec(self, rhs),
    {
        self.0.0.mul(rhs.0.0).add(self.0.1.mul(rhs.0.1)).add(self.0.2.mul(rhs.0.2))
    }

    /// Cross product.
    pub fn cross(self, rhs: Vector) -> (r: Vector)
        ensures
            (r.x(), r.y(), r.z()) == cross3(
                self.x(),
                self.y(),
                self.z(),
                rhs.x(),
                rhs.y(),
                rhs.z(),
            ),
            r.w() == 0,
    {
        Vector::new(
            self.0.1.mul(rhs.0.2).sub(self.0.2.mul(rhs.0.1)),
            self.0.2.mul(rhs.0.0).sub(self.0.0.mul(rhs.0.2)),
            self.0.0.mul(rhs.0.1).sub(self.0.1.mul(rhs.0.0)),
        )
    }

    /// The incoming vector mirrored across a surface normal.
    pub fn reflect_across(&self, normal: Vector) -> (r: Vector)
        ensures
            (r.x(), r.y(), r.z()) == reflect3(
                self.x(),
                self.y(),
                self.z(),
                normal.x(),
                normal.y(),
                normal.z(),
            ),
            r.w() == 0,
    {
        let d = self.dot(normal);
        let two = Scalar::from_whole(2);
        self.sub(normal.scale(d).scale(two))
    }
}


/// Squaring preserves order of nonnegative numbers.
proof fn lemma_square_le(a: int, b: int)
    by (nonlinear_arith)
    requires
        0 <= a <= b,
    ensures
        a * a <= b * b,
{
}

/// A common positive square factor cancels from a strict comparison.
proof fn lemma_cancel_factor_lt(m: int, a: int, b: int)
    by (nonlinear_arith)
    requires
        0 < m,
        m * m * a < m * m * b,
    ensures
        a < b,
{
}

/// A square equals the square of the magnitude.
proof fn lemma_square_abs(a: int)
    by (nonlinear_arith)
    ensures
        a * a == iabs(a) * iabs(a),
        0 <= a * a,
{
}

/// What dividing one component by a covering length yields: a quotient of at
/// most one whole, pinched between the two sides of the division identity.
proof fn lemma_component_quotient(c: int, m: int)
    requires
        0 < m <= MAX_UNITS as int,
        iabs(c) <= m,
    ensures
        iabs(fx_div(c, m)) <= SCALE as int,
        m * iabs(fx_div(c, m)) <= iabs(c) * (SCALE as int),
        iabs(c) * (SCALE as int) < m * (iabs(fx_div(c, m)) + 1),
{
    let p = iabs(c) * (SCALE as int);
    assert(0 <= p && p <= m * (SCALE as int)) by (nonlinear_arith)
        requires
            p == iabs(c) * (SCALE as int),
            0 <= iabs(c) <= m,
            0 < m,
            SCALE as int == 1_000_000;
    let q = p / m;
    vstd::arithmetic::div_mod::lemma_fundamental_div_mod(p, m);
    vstd::arithmetic::div_mod::lemma_mod_division_less_than_divisor(p, m);
    vstd::arithmetic::div_mod::lemma_div_pos_is_pos(p, m);
    assert(q <= SCALE as int) by {
        vstd::arithmetic::div_mod::lemma_div_is_ordered(p, m * (SCALE as int), m);
        vstd::arithmetic::div_mod::lemma_div_by_multiple(SCALE as int, m);
        assert((SCALE as int) * m == m * (SCALE as int)) by (nonlinear_arith);
    }
    assert(iabs(c * (SCALE as int)) == p) by (nonlinear_arith)
        requires
            p == iabs(c) * (SCALE as int),
            SCALE as int == 1_000_000;
    assert(iabs(tdiv(c * (SCALE as int), m)) == q);
    assert(fx_div(c, m) == tdiv(c * (SCALE as int), m));
    assert(m * q <= p && p < m * (q + 1)) by (nonlinear_arith)
        requires
            p == m * q + p % m,
            0 <= p % m < m;
}

/// Law: normalizing returns a fuzzily unit-length triple whenever the input
/// carries at least a fifth of a whole in magnitude and its components stay
/// inside half the representable range. (A much shorter input divides so
/// coarsely that no unit-length promise holds of it: the truncation floor of
/// the length is amplified by the division.)
pub proof fn lemma_normalize_unit(x: int, y: int, z: int)
    requires
        mag3(x, y, z) >= 200_000,
        iabs(x) <= 2_000_000_000_000_000,
        iabs(y) <= 2_000_000_000_000_000,
        iabs(z) <= 2_000_000_000_000_000,
    ensures
        fx_fuzzy_eq(
            mag3(norm3_c(x, x, y, z), norm3_c(y, x, y, z), norm3_c(z, x, y, z)),
            SCALE as int,
        ),
{
    let s_ = SCALE as int;
    let q = x * x + y * y + z * z;
    lemma_square_abs(x);
    lemma_square_abs(y);
    lemma_square_abs(z);
    assert(q <= (MAX_UNITS as int) * (MAX_UNITS as int)) by (nonlinear_arith)
        requires
            q == iabs(x) * iabs(x) + iabs(y) * iabs(y) + iabs(z) * iabs(z),
            0 <= iabs(x) <= 2_000_000_000_000_000,
            0 <= iabs(y) <= 2_000_000_000_000_000,
            0 <= iabs(z) <= 2_000_000_000_000_000,
            MAX_UNITS as int == 4_000_000_000_000_000;
    lemma_sqrt_floor_bounds(q);
    let m = sqrt_floor(q);
    assert(m <= MAX_UNITS as int) by (nonlinear_arith)
        requires
            0 <= m,
            m * m <= q,
            q <= (MAX_UNITS as int) * (MAX_UNITS as int),
            MAX_UNITS as int > 0;
    assert(mag3(x, y, z) == m);
    assert(iabs(x) <= m && iabs(y) <= m && iabs(z) <= m) by (nonlinear_arith)
        requires
            0 <= m,
            x * x + y * y + z * z == q,
            q < (m + 1) * (m + 1),
            x * x == iabs(x) * iabs(x),
            y * y == iabs(y) * iabs(y),
            z * z == iabs(z) * iabs(z),
            0 <= iabs(x),
            0 <= iabs(y),
            0 <= iabs(z);
    lemma_component_quotient(x, m);
    lemma_component_quotient(y, m);
    lemma_component_quotient(z, m);
    let rx = fx_div(x, m);
    let ry = fx_div(y, m);
    let rz = fx_div(z, m);
    lemma_square_abs(rx);
    lemma_square_abs(ry);
    lemma_square_abs(rz);
    assert(norm3_c(x, x, y, z) == rx && norm3_c(y, x, y, z) == ry && norm3_c(z, x, y, z) == rz);
    let rr = rx * rx + ry * ry + rz * rz;
    lemma_quotient_square_pinch(x, rx, m);
    lemma_quotient_square_pinch(y, ry, m);
    lemma_quotient_square_pinch(z, rz, m);
    // Lower bound on the squared quotient length.
    assert(s_ * s_ * q == (x * x) * (s_ * s_) + (y * y) * (s_ * s_) + (z * z) * (s_ * s_))
        by (nonlinear_arith)
        requires
            q == x * x + y * y + z * z;
    assert(s_ * s_ * q >= s_ * s_ * (m * m)) by (nonlinear_arith)
        requires
            m * m <= q,
            0 < s_;
    assert(m * m * rr == m * m * (rx * rx) + m * m * (ry * ry) + m * m * (rz * rz))
        by (nonlinear_arith)
        requires
            rr == rx * rx + ry * ry + rz * rz;
    assert(2 * (m * m) * (iabs(rx) + iabs(ry) + iabs(rz)) == 2 * (m * m) * iabs(rx) + 2 * (m * m)
        * iabs(ry) + 2 * (m * m) * iabs(rz)) by (nonlinear_arith);
    assert(s_ * s_ * (m * m) < m * m * rr + 2 * (m * m) * (iabs(rx) + iabs(ry) + iabs(rz)) + 3 * (
    m * m));
    assert(rr + 2 * (iabs(rx) + iabs(ry) + iabs(rz)) + 3 > s_ * s_) by {
        assert(m * m * (rr + 2 * (iabs(rx) + iabs(ry) + iabs(rz)) + 3) == m * m * rr + 2 * (m * m)
            * (iabs(rx) + iabs(ry) + iabs(rz)) + 3 * (m * m)) by (nonlinear_arith);
        lemma_cancel_factor_lt(m, s_ * s_, rr + 2 * (iabs(rx) + iabs(ry) + iabs(rz)) + 3);
    }
    assert((s_ - 5) * (s_ - 5) <= rr) by (nonlinear_arith)
        requires
            rr + 2 * (iabs(rx) + iabs(ry) + iabs(rz)) + 3 > s_ * s_,
            iabs(rx) <= s_,
            iabs(ry) <= s_,
            iabs(rz) <= s_,
            s_ == 1_000_000;
    // Upper bound on the squared quotient length.
    assert(m * m * rr <= s_ * s_ * q) by (nonlinear_arith)
        requires
            rr == rx * rx + ry * ry + rz * rz,
            m * m * (rx * rx) <= (x * x) * (s_ * s_),
            m * m * (ry * ry) <= (y * y) * (s_ * s_),
            m * m * (rz * rz) <= (z * z) * (s_ * s_),
            q == x * x + y * y + z * z,
            s_ * s_ * q == (x * x) * (s_ * s_) + (y * y) * (s_ * s_) + (z * z) * (s_ * s_);
    assert(s_ * (m + 1) <= m * (s_ + 5)) by (nonlinear_arith)
        requires
            200_000 <= m,
            s_ == 1_000_000;
    lemma_square_le(s_ * (m + 1), m * (s_ + 5));
    assert(s_ * s_ * q < (s_ * (m + 1)) * (s_ * (m + 1))) by (nonlinear_arith)
        requires
            q < (m + 1) * (m + 1),
            0 < s_;
    assert((m * (s_ + 5)) * (m * (s_ + 5)) == m * m * ((s_ + 5) * (s_ + 5))) by (nonlinear_arith);
    assert(rr < (s_ + 5) * (s_ + 5)) by {
        assert(m * m * rr < m * m * ((s_ + 5) * (s_ + 5)));
        lemma_cancel_factor_lt(m, rr, (s_ + 5) * (s_ + 5));
    }
    // The measured length of the quotients therefore sits within the fuzzy
    // tolerance of one whole.
    lemma_sqrt_floor_bounds(rr);
    let t = sqrt_floor(rr);
    assert(s_ - 5 <= t && t <= s_ + 4) by (nonlinear_arith)
        requires
            0 <= t,
            t * t <= rr,
            rr < (t + 1) * (t + 1),
            (s_ - 5) * (s_ - 5) <= rr,
            rr < (s_ + 5) * (s_ + 5),
            s_ == 1_000_000;
    assert(mag3(rx, ry, rz) == t);
}

/// The squared quotient of one component, pinched between the exact ratio
/// and one division step above it.
proof fn lemma_quotient_square_pinch(c: int, r: int, m: int)
    requires
        0 < m,
        r == fx_div(c, m),
        m * iabs(r) <= iabs(c) * (SCALE as int),
        iabs(c) * (SCALE as int) < m * (iabs(r) + 1),
        iabs(r) <= SCALE as int,
    ensures
        m * m * (r * r) <= (c * c) * ((SCALE as int) * (SCALE as int)),
        (c * c) * ((SCALE as int) * (SCALE as int)) < m * m * (r * r) + 2 * (m * m) * iabs(r) + m
            * m,
{
    let s_ = SCALE as int;
    lemma_square_abs(c);
    lemma_square_abs(r);
    lemma_square_le(m * iabs(r), iabs(c) * s_);
    assert(0 <= m * iabs(r)) by (nonlinear_arith)
        requires
            0 < m,
            0 <= iabs(r);
    assert((m * iabs(r)) * (m * iabs(r)) == m * m * (r * r)) by (nonlinear_arith)
        requires
            r * r == iabs(r) * iabs(r);
    assert((iabs(c) * s_) * (iabs(c) * s_) == (c * c) * (s_ * s_)) by (nonlinear_arith)
        requires
            c * c == iabs(c) * iabs(c);
    assert((iabs(c) * s_) * (iabs(c) * s_) < (m * (iabs(r) + 1)) * (m * (iabs(r) + 1)))
        by (nonlinear_arith)
        requires
            0 <= iabs(c) * s_,
            iabs(c) * s_ < m * (iabs(r) + 1),
    ;
    assert((m * (iabs(r) + 1)) * (m * (iabs(r) + 1)) == m * m * (r * r) + 2 * (m * m) * iabs(r)
        + m * m) by (nonlinear_arith)
        requires
            r * r == iabs(r) * iabs(r);
}

impl FuzzyPartialEq<Vector> for Vector {
    open spec fn fuzzy_spec(self, other: Vector) -> bool {
        self.0.fuzzy_eq_parts(&other.0)
    }

    fn fuzzy_eq(self, other: Vector) -> (r: bool) {
        self.0.fuzzy_eq(other.0)
    }
}

} // verus!
