//! Fixed-size square matrices.
//!
//! The four-by-four matrix is the transform type: it carries the affine maps
//! that place bodies in the world. The three- and two-wide forms exist for the
//! cofactor expansion that computes determinants and inverses. A row of the
//! four-wide matrix is a homogeneous tuple, so applying a matrix to a point or
//! vector is a row of dot products.
use vstd::prelude::*;

use crate::fuzzy_comparison::FuzzyPartialEq;
use crate::point::Point;
use crate::scalar::{
    fx_add, fx_div, fx_fuzzy_eq, fx_mul, fx_neg, fx_sub, Scalar, SCALE,
};
use crate::three_part::ThreePart;
use crate::vector::Vector;

verus! {

/// A two-by-two matrix.
#[derive(Clone, Copy, Debug)]
pub struct Matrix2f {
    pub r0: (Scalar, Scalar),
    pub r1: (Scalar, Scalar),
}

/// A three-by-three matrix.
#[derive(Clone, Copy, Debug)]
pub struct Matrix3f {
    pub r0: (Scalar, Scalar, Scalar),
    pub r1: (Scalar, Scalar, Scalar),
    pub r2: (Scalar, Scalar, Scalar),
}

/// A four-by-four matrix; the transform type.
#[derive(Clone, Copy, Debug)]
pub struct Matrix4f {
    pub r0: ThreePart,
    pub r1: ThreePart,
    pub r2: ThreePart,
    pub r3: ThreePart,
}

/// Index of the surviving row or column once `skipped` is removed.
pub open spec fn skip(k: int, skipped: int) -> int {
    if k < skipped {
        k
    } else {
        k + 1
    }
}

/// The determinant of a two-by-two matrix.
pub open spec fn det2_spec(m: Matrix2f) -> int {
    fx_sub(fx_mul(m.at(0, 0), m.at(1, 1)), fx_mul(m.at(0, 1), m.at(1, 0)))
}

/// The entry of a three-by-three matrix, as a scalar value.
pub open spec fn sel3(m: Matrix3f, r: int, c: int) -> Scalar {
    let row = if r == 0 {
        m.r0
    } else if r == 1 {
        m.r1
    } else {
        m.r2
    };
    if c == 0 {
        row.0
    } else if c == 1 {
        row.1
    } else {
        row.2
    }
}

/// The two-by-two matrix left when one row and one column are removed.
pub open spec fn sub3_spec(m: Matrix3f, row: int, col: int) -> Matrix2f {
    Matrix2f {
        r0: (sel3(m, skip(0, row), skip(0, col)), sel3(m, skip(0, row), skip(1, col))),
        r1: (sel3(m, skip(1, row), skip(0, col)), sel3(m, skip(1, row), skip(1, col))),
    }
}

/// A first-minor of a three-by-three matrix.
pub open spec fn minor3_spec(m: Matrix3f, row: int, col: int) -> int {
    det2_spec(sub3_spec(m, row, col))
}

/// A cofactor of a three-by-three matrix.
pub open spec fn cof3_spec(m: Matrix3f, row: int, col: int) -> int {
    if (row + col) % 2 == 0 {
        minor3_spec(m, row, col)
    } else {
        fx_neg(minor3_spec(m, row, col))
    }
}

/// The determinant of a three-by-three matrix by cofactor expansion along the
/// first row.
pub open spec fn det3_spec(m: Matrix3f) -> int {
    fx_add(
        fx_add(
            fx_mul(cof3_spec(m, 0, 0), m.at(0, 0)),
            fx_mul(cof3_spec(m, 0, 1), m.at(0, 1)),
        ),
        fx_mul(cof3_spec(m, 0, 2), m.at(0, 2)),
    )
}

/// The entry of a four-by-four matrix, as a scalar value.
pub open spec fn sel4(m: Matrix4f, r: int, c: int) -> Scalar {
    let row = if r == 0 {
        m.r0
    } else if r == 1 {
        m.r1
    } else if r == 2 {
        m.r2
    } else {
        m.r3
    };
    if c == 0 {
        row.0
    } else if c == 1 {
        row.1
    } else if c == 2 {
        row.2
    } else {
        row.3
    }
}

/// The three-by-three matrix left when one row and one column are removed.
pub open spec fn sub4_spec(m: Matrix4f, row: int, col: int) -> Matrix3f {
    Matrix3f {
        r0: (
            sel4(m, skip(0, row), skip(0, col)),
            sel4(m, skip(0, row), skip(1, col)),
            sel4(m, skip(0, row), skip(2, col)),
        ),
        r1: (
            sel4(m, skip(1, row), skip(0, col)),
            sel4(m, skip(1, row), skip(1, col)),
            sel4(m, skip(1, row), skip(2, col)),
        ),
        r2: (
            sel4(m, skip(2, row), skip(0, col)),
            sel4(m, skip(2, row), skip(1, col)),
            sel4(m, skip(2, row), skip(2, col)),
        ),
    }
}

/// A first-minor of a four-by-four matrix.
pub open spec fn minor4_spec(m: Matrix4f, row: int, col: int) -> int {
    det3_spec(sub4_spec(m, row, col))
}

/// A cofactor of a four-by-four matrix.
pub open spec fn cof4_spec(m: Matrix4f, row: int, col: int) -> int {
    if (row + col) % 2 == 0 {
        minor4_spec(m, row, col)
    } else {
        fx_neg(minor4_spec(m, row, col))
    }
}

/// The determinant of a four-by-four matrix by cofactor expansion along the
/// first row.
pub open spec fn det4_spec(m: Matrix4f) -> int {
    fx_add(
        fx_add(
            fx_add(
                fx_mul(cof4_spec(m, 0, 0), m.at(0, 0)),
                fx_mul(cof4_spec(m, 0, 1), m.at(0, 1)),
            ),
            fx_mul(cof4_spec(m, 0, 2), m.at(0, 2)),
        ),
        fx_mul(cof4_spec(m, 0, 3), m.at(0, 3)),
    )
}

/// The four-element dot product of two homogeneous tuples, summed left to
/// right.
pub open spec fn dot4_spec(a: ThreePart, b: ThreePart) -> int {
    fx_add(
        fx_add(fx_add(fx_mul(a.a(), b.a()), fx_mul(a.b(), b.b())), fx_mul(a.c(), b.c())),
        fx_mul(a.w(), b.w()),
    )
}

/// An entry of a matrix product.
pub open spec fn mul4_at(a: Matrix4f, b: Matrix4f, r: int, c: int) -> int {
    fx_add(
        fx_add(
            fx_add(fx_mul(a.at(r, 0), b.at(0, c)), fx_mul(a.at(r, 1), b.at(1, c))),
            fx_mul(a.at(r, 2), b.at(2, c)),
        ),
        fx_mul(a.at(r, 3), b.at(3, c)),
    )
}

/// One component of a matrix applied to a homogeneous column.
pub open spec fn apply_at(m: Matrix4f, x: int, y: int, z: int, w: int, row: int) -> int {
    fx_add(
        fx_add(
            fx_add(fx_mul(m.at(row, 0), x), fx_mul(m.at(row, 1), y)),
            fx_mul(m.at(row, 2), z),
        ),
        fx_mul(m.at(row, 3), w),
    )
}

/// The four-element dot product of two homogeneous tuples.
fn dot4(a: ThreePart, b: ThreePart) -> (r: Scalar)
    ensures
        r@ == dot4_spec(a, b),
{
    a.0.mul(b.0).add(a.1.mul(b.1)).add(a.2.mul(b.2)).add(a.3.mul(b.3))
}

impl Matrix2f {
    /// The matrix entry at the given row and column.
    pub open spec fn at(&self, r: int, c: int) -> int {
        let row = if r == 0 {
            self.r0
        } else {
            self.r1
        };
        if c == 0 {
            row.0@
        } else {
            row.1@
        }
    }

    /// The matrix with the given rows.
    pub fn new_with_data(r0: (Scalar, Scalar), r1: (Scalar, Scalar)) -> (r: Matrix2f)
        ensures
            r == (Matrix2f { r0, r1 }),
    {
        Matrix2f { r0, r1 }
    }

    /// The determinant.
    pub fn determinant(&self) -> (r: Scalar)
        ensures
            r@ == det2_spec(*self),
    {
        self.r0.0.mul(self.r1.1).sub(self.r0.1.mul(self.r1.0))
    }

    /// Whether the determinant is fuzzily distinct from zero.
    pub fn is_invertible(&self) -> (r: bool)
        ensures
            r == !fx_fuzzy_eq(det2_spec(*self), 0),
    {
        !self.determinant().fuzzy_eq_scalar(Scalar::zero())
    }
}

impl Matrix3f {
    /// The matrix entry at the given row and column.
    pub open spec fn at(&self, r: int, c: int) -> int {
        sel3(*self, r, c)@
    }

    /// The matrix with the given rows.
    pub fn new_with_data(
        r0: (Scalar, Scalar, Scalar),
        r1: (Scalar, Scalar, Scalar),
        r2: (Scalar, Scalar, Scalar),
    ) -> (r: Matrix3f)
        ensures
            r == (Matrix3f { r0, r1, r2 }),
    {
        Matrix3f { r0, r1, r2 }
    }

    /// The two-by-two matrix left when the given row and column are removed.
    pub fn submatrix(&self, row: usize, column: usize) -> (r: Matrix2f)
        requires
            row < 3,
            column < 3,
        ensures
            r == sub3_spec(*self, row as int, column as int),
    {
        let (a, b) = if row == 0 {
            (self.r1, self.r2)
        } else if row == 1 {
            (self.r0, self.r2)
        } else {
            (self.r0, self.r1)
        };
        if column == 0 {
            Matrix2f { r0: (a.1, a.2), r1: (b.1, b.2) }
        } else if column == 1 {
            Matrix2f { r0: (a.0, a.2), r1: (b.0, b.2) }
        } else {
            Matrix2f { r0: (a.0, a.1), r1: (b.0, b.1) }
        }
    }

    /// A first-minor: the determinant of a submatrix.
    pub fn minor(&self, row: usize, column: usize) -> (r: Scalar)
        requires
            row < 3,
            column < 3,
        ensures
            r@ == minor3_spec(*self, row as int, column as int),
    {
        self.submatrix(row, column).determinant()
    }

    /// A cofactor: the signed first-minor.
    pub fn cofactor(&self, row: usize, column: usize) -> (r: Scalar)
        requires
            row < 3,
            column < 3,
        ensures
            r@ == cof3_spec(*self, row as int, column as int),
    {
        let minor = self.minor(row, column);
        if (row + column) % 2 == 0 {
            minor
        } else {
            minor.neg()
        }
    }

    /// The determinant, by cofactor expansion along the first row.
    pub fn determinant(&self) -> (r: Scalar)
        ensures
            r@ == det3_spec(*self),
    {
        self.cofactor(0, 0).mul(self.r0.0).add(self.cofactor(0, 1).mul(self.r0.1)).add(
            self.cofactor(0, 2).mul(self.r0.2),
        )
    }

    /// Whether the determinant is fuzzily distinct from zero.
    pub fn is_invertible(&self) -> (r: bool)
        ensures
            r == !fx_fuzzy_eq(det3_spec(*self), 0),
    {
        !self.determinant().fuzzy_eq_scalar(Scalar::zero())
    }
}

impl Matrix4f {
    /// The row at the given index.
    pub open spec fn row(&self, r: int) -> ThreePart {
        if r == 0 {
            self.r0
        } else if r == 1 {
            self.r1
        } else if r == 2 {
            self.r2
        } else {
            self.r3
        }
    }

    /// The matrix entry at the given row and column.
    pub open spec fn at(&self, r: int, c: int) -> int {
        sel4(*self, r, c)@
    }

    /// The bottom row reads zero, zero, zero, one: points stay points and
    /// vectors stay vectors under this matrix.
    pub open spec fn is_affine(&self) -> bool {
        &&& self.at(3, 0) == 0
        &&& self.at(3, 1) == 0
        &&& self.at(3, 2) == 0
        &&& self.at(3, 3) == SCALE as int
    }

    /// The zero matrix.
    pub fn new() -> (r: Matrix4f)
        ensures
            forall|rr: int, cc: int|
                0 <= rr < 4 && 0 <= cc < 4 ==> #[trigger] r.at(rr, cc) == 0,
    {
        let z = Scalar::zero();
        let row = ThreePart(z, z, z, z);
        Matrix4f { r0: row, r1: row, r2: row, r3: row }
    }

    /// The matrix with the given rows.
    pub fn new_with_data(r0: ThreePart, r1: ThreePart, r2: ThreePart, r3: ThreePart) -> (r:
        Matrix4f)
        ensures
            r == (Matrix4f { r0, r1, r2, r3 }),
    {
        Matrix4f { r0, r1, r2, r3 }
    }

    /// The identity matrix.
    pub fn identity() -> (r: Matrix4f)
        ensures
            forall|rr: int, cc: int|
                0 <= rr < 4 && 0 <= cc < 4 ==> #[trigger] r.at(rr, cc) == (
                if rr == cc {
                    SCALE as int
                } else {
                    0
                }),
    {
        let z = Scalar::zero();
        let o = Scalar::one();
        Matrix4f {
            r0: ThreePart(o, z, z, z),
            r1: ThreePart(z, o, z, z),
            r2: ThreePart(z, z, o, z),
            r3: ThreePart(z, z, z, o),
        }
    }

    /// The entry at column `x` of row `y`.
    pub fn get_position(&self, x: usize, y: usize) -> (r: Scalar)
        requires
            x < 4,
            y < 4,
        ensures
            r@ == self.at(y as int, x as int),
    {
        let row = if y == 0 {
            self.r0
        } else if y == 1 {
            self.r1
        } else if y == 2 {
            self.r2
        } else {
            self.r3
        };
        if x == 0 {
            row.0
        } else if x == 1 {
            row.1
        } else if x == 2 {
            row.2
        } else {
            row.3
        }
    }

    /// Writes the entry at column `x` of row `y`, leaving the rest unchanged.
    pub fn set_position(&mut self, x: usize, y: usize, value: Scalar)
        requires
            x < 4,
            y < 4,
        ensures
            final(self).at(y as int, x as int) == value@,
            forall|rr: int, cc: int|
                0 <= rr < 4 && 0 <= cc < 4 && !(rr == y as int && cc == x as int)
                    ==> #[trigger] final(self).at(rr, cc) == old(self).at(rr, cc),
    {
        let row = if y == 0 {
            &mut self.r0
        } else if y == 1 {
            &mut self.r1
        } else if y == 2 {
            &mut self.r2
        } else {
            &mut self.r3
        };
        if x == 0 {
            row.0 = value;
        } else if x == 1 {
            row.1 = value;
        } else if x == 2 {
            row.2 = value;
        } else {
            row.3 = value;
        }
    }

    /// The matrix flipped across its diagonal.
    pub fn transpose(&self) -> (r: Matrix4f)
        ensures
            forall|rr: int, cc: int|
                0 <= rr < 4 && 0 <= cc < 4 ==> #[trigger] r.at(rr, cc) == self.at(cc, rr),
    {
        Matrix4f {
            r0: ThreePart(self.r0.0, self.r1.0, self.r2.0, self.r3.0),
            r1: ThreePart(self.r0.1, self.r1.1, self.r2.1, self.r3.1),
            r2: ThreePart(self.r0.2, self.r1.2, self.r2.2, self.r3.2),
            r3: ThreePart(self.r0.3, self.r1.3, self.r2.3, self.r3.3),
        }
    }

    /// Component-wise sum of two matrices.
    pub fn add(self, rhs: Matrix4f) -> (r: Matrix4f)
        ensures
            forall|rr: int, cc: int|
                0 <= rr < 4 && 0 <= cc < 4 ==> #[trigger] r.at(rr, cc) == fx_add(
                    self.at(rr, cc),
                    rhs.at(rr, cc),
                ),
    {
        Matrix4f {
            r0: add_row(self.r0, rhs.r0),
            r1: add_row(self.r1, rhs.r1),
            r2: add_row(self.r2, rhs.r2),
            r3: add_row(self.r3, rhs.r3),
        }
    }

    /// Component-wise difference of two matrices.
    pub fn sub(self, rhs: Matrix4f) -> (r: Matrix4f)
        ensures
            forall|rr: int, cc: int|
                0 <= rr < 4 && 0 <= cc < 4 ==> #[trigger] r.at(rr, cc) == fx_sub(
                    self.at(rr, cc),
                    rhs.at(rr, cc),
                ),
    {
        Matrix4f {
            r0: sub_row(self.r0, rhs.r0),
            r1: sub_row(self.r1, rhs.r1),
            r2: sub_row(self.r2, rhs.r2),
            r3: sub_row(self.r3, rhs.r3),
        }
    }

    /// Every entry scaled by a scalar.
    pub fn mul_scalar(self, rhs: Scalar) -> (r: Matrix4f)
        ensures
            forall|rr: int, cc: int|
                0 <= rr < 4 && 0 <= cc < 4 ==> #[trigger] r.at(rr, cc) == fx_mul(
                    self.at(rr, cc),
                    rhs@,
                ),
    {
        Matrix4f {
            r0: scale_row(self.r0, rhs),
            r1: scale_row(self.r1, rhs),
            r2: scale_row(self.r2, rhs),
            r3: scale_row(self.r3, rhs),
        }
    }

    /// Every entry divided by a scalar; division by zero yields zero.
    pub fn div_by(self, rhs: Scalar) -> (r: Matrix4f)
        ensures
            forall|rr: int, cc: int|
                0 <= rr < 4 && 0 <= cc < 4 ==> #[trigger] r.at(rr, cc) == fx_div(
                    self.at(rr, cc),
                    rhs@,
                ),
    {
        Matrix4f {
            r0: div_row(self.r0, rhs),
            r1: div_row(self.r1, rhs),
            r2: div_row(self.r2, rhs),
            r3: div_row(self.r3, rhs),
        }
    }

    /// Matrix product.
    pub fn mul(self, rhs: Matrix4f) -> (r: Matrix4f)
        ensures
            forall|rr: int, cc: int|
                0 <= rr < 4 && 0 <= cc < 4 ==> #[trigger] r.at(rr, cc) == mul4_at(
                    self,
                    rhs,
                    rr,
                    cc,
                ),
    {
        let c0 = ThreePart(rhs.r0.0, rhs.r1.0, rhs.r2.0, rhs.r3.0);
        let c1 = ThreePart(rhs.r0.1, rhs.r1.1, rhs.r2.1, rhs.r3.1);
        let c2 = ThreePart(rhs.r0.2, rhs.r1.2, rhs.r2.2, rhs.r3.2);
        let c3 = ThreePart(rhs.r0.3, rhs.r1.3, rhs.r2.3, rhs.r3.3);
        let out = Matrix4f {
            r0: ThreePart(
                dot4(self.r0, c0),
                dot4(self.r0, c1),
                dot4(self.r0, c2),
                dot4(self.r0, c3),
            ),
            r1: ThreePart(
                dot4(self.r1, c0),
                dot4(self.r1, c1),
                dot4(self.r1, c2),
                dot4(self.r1, c3),
            ),
            r2: ThreePart(
                dot4(self.r2, c0),
                dot4(self.r2, c1),
                dot4(self.r2, c2),
                dot4(self.r2, c3),
            ),
            r3: ThreePart(
                dot4(self.r3, c0),
                dot4(self.r3, c1),
                dot4(self.r3, c2),
                dot4(self.r3, c3),
            ),
        };
        proof {
            assert forall|rr: int, cc: int|
                0 <= rr < 4 && 0 <= cc < 4 implies #[trigger] out.at(rr, cc) == mul4_at(
                self,
                rhs,
                rr,
                cc,
            ) by {
            }
        }
        out
    }

    /// The three-by-three matrix left when the given row and column are
    /// removed.
    pub fn submatrix(&self, row: usize, column: usize) -> (r: Matrix3f)
        requires
            row < 4,
            column < 4,
        ensures
            r == sub4_spec(*self, row as int, column as int),
    {
        let (a, b, c) = if row == 0 {
            (self.r1, self.r2, self.r3)
        } else if row == 1 {
            (self.r0, self.r2, self.r3)
        } else if row == 2 {
            (self.r0, self.r1, self.r3)
        } else {
            (self.r0, self.r1, self.r2)
        };
        if column == 0 {
            Matrix3f { r0: (a.1, a.2, a.3), r1: (b.1, b.2, b.3), r2: (c.1, c.2, c.3) }
        } else if column == 1 {
            Matrix3f { r0: (a.0, a.2, a.3), r1: (b.0, b.2, b.3), r2: (c.0, c.2, c.3) }
        } else if column == 2 {
            Matrix3f { r0: (a.0, a.1, a.3), r1: (b.0, b.1, b.3), r2: (c.0, c.1, c.3) }
        } else {
            Matrix3f { r0: (a.0, a.1, a.2), r1: (b.0, b.1, b.2), r2: (c.0, c.1, c.2) }
        }
    }

    /// A first-minor: the determinant of a submatrix.
    pub fn minor(&self, row: usize, column: usize) -> (r: Scalar)
        requires
            row < 4,
            column < 4,
        ensures
            r@ == minor4_spec(*self, row as int, column as int),
    {
        self.submatrix(row, column).determinant()
    }

    /// A cofactor: the signed first-minor.
    pub fn cofactor(&self, row: usize, column: usize) -> (r: Scalar)
        requires
            row < 4,
            column < 4,
        ensures
            r@ == cof4_spec(*self, row as int, column as int),
    {
        let minor = self.minor(row, column);
        if (row + column) % 2 == 0 {
            minor
        } else {
            minor.neg()
        }
    }

    /// The determinant, by cofactor expansion along the first row.
    pub fn determinant(&self) -> (r: Scalar)
        ensures
            r@ == det4_spec(*self),
    {
        self.cofactor(0, 0).mul(self.r0.0).add(self.cofactor(0, 1).mul(self.r0.1)).add(
            self.cofactor(0, 2).mul(self.r0.2),
        ).add(self.cofactor(0, 3).mul(self.r0.3))
    }

    /// Whether the determinant is fuzzily distinct from zero.
    pub fn is_invertible(&self) -> (r: bool)
        ensures
            r == !fx_fuzzy_eq(det4_spec(*self), 0),
    {
        !self.determinant().fuzzy_eq_scalar(Scalar::zero())
    }

    /// The inverse by the adjugate: each entry is a cofactor of the
    /// transposed position divided by the determinant. A matrix whose
    /// determinant is exactly zero has no inverse.
    #[verifier::rlimit(100)]
    pub fn inverse(&self) -> (r: Option<Matrix4f>)
        ensures
            r is Some <==> det4_spec(*self) != 0,
            r matches Some(inv) ==> forall|rr: int, cc: int|
                0 <= rr < 4 && 0 <= cc < 4 ==> #[trigger] inv.at(rr, cc) == fx_div(
                    cof4_spec(*self, cc, rr),
                    det4_spec(*self),
                ),
    {
        let deter = self.determinant();
        if deter.units() == 0 {
            None
        } else {
            Some(
                Matrix4f {
                    r0: ThreePart(
                        self.cofactor(0, 0).div(deter),
                        self.cofactor(1, 0).div(deter),
                        self.cofactor(2, 0).div(deter),
                        self.cofactor(3, 0).div(deter),
                    ),
                    r1: ThreePart(
                        self.cofactor(0, 1).div(deter),
                        self.cofactor(1, 1).div(deter),
                        self.cofactor(2, 1).div(deter),
                        self.cofactor(3, 1).div(deter),
                    ),
                    r2: ThreePart(
                        self.cofactor(0, 2).div(deter),
                        self.cofactor(1, 2).div(deter),
                        self.cofactor(2, 2).div(deter),
                        self.cofactor(3, 2).div(deter),
                    ),
                    r3: ThreePart(
                        self.cofactor(0, 3).div(deter),
                        self.cofactor(1, 3).div(deter),
                        self.cofactor(2, 3).div(deter),
                        self.cofactor(3, 3).div(deter),
                    ),
                },
            )
        }
    }

    /// The matrix with its bottom row forced back to zero, zero, zero, one,
    /// guarding against drift leaking into the homogeneous row of a composed
    /// transform.
    pub fn fix_transform(&self) -> (r: Matrix4f)
        ensures
            r.r0 == self.r0,
            r.r1 == self.r1,
            r.r2 == self.r2,
            r.is_affine(),
    {
        let z = Scalar::zero();
        Matrix4f {
            r0: self.r0,
            r1: self.r1,
            r2: self.r2,
            r3: ThreePart(z, z, z, Scalar::one()),
        }
    }

    /// The matrix applied to a point. The bottom row must be exact so that
    /// the result carries the point tag.
    pub fn mul_point(self, rhs: Point) -> (r: Point)
        requires
            self.is_affine(),
            rhs.is_point(),
        ensures
            r.x() == apply_at(self, rhs.x(), rhs.y(), rhs.z(), SCALE as int, 0),
            r.y() == apply_at(self, rhs.x(), rhs.y(), rhs.z(), SCALE as int, 1),
            r.z() == apply_at(self, rhs.x(), rhs.y(), rhs.z(), SCALE as int, 2),
            r.is_point(),
    {
        Point::new(dot4(self.r0, rhs.0), dot4(self.r1, rhs.0), dot4(self.r2, rhs.0))
    }

    /// The matrix applied to a vector. The bottom row must be exact so that
    /// the result carries the vector tag.
    pub fn mul_vector(self, rhs: Vector) -> (r: Vector)
        requires
            self.is_affine(),
            rhs.is_vector(),
        ensures
            r.x() == apply_at(self, rhs.x(), rhs.y(), rhs.z(), 0, 0),
            r.y() == apply_at(self, rhs.x(), rhs.y(), rhs.z(), 0, 1),
            r.z() == apply_at(self, rhs.x(), rhs.y(), rhs.z(), 0, 2),
            r.is_vector(),
    {
        Vector::new(dot4(self.r0, rhs.0), dot4(self.r1, rhs.0), dot4(self.r2, rhs.0))
    }
}

/// Component-wise sum of two rows.
fn add_row(a: ThreePart, b: ThreePart) -> (r: ThreePart)
    ensures
        r.a() == fx_add(a.a(), b.a()),
        r.b() == fx_add(a.b(), b.b()),
        r.c() == fx_add(a.c(), b.c()),
        r.w() == fx_add(a.w(), b.w()),
{
    ThreePart(a.0.add(b.0), a.1.add(b.1), a.2.add(b.2), a.3.add(b.3))
}

/// Component-wise difference of two rows.
fn sub_row(a: ThreePart, b: ThreePart) -> (r: ThreePart)
    ensures
        r.a() == fx_sub(a.a(), b.a()),
        r.b() == fx_sub(a.b(), b.b()),
        r.c() == fx_sub(a.c(), b.c()),
        r.w() == fx_sub(a.w(), b.w()),
{
    ThreePart(a.0.sub(b.0), a.1.sub(b.1), a.2.sub(b.2), a.3.sub(b.3))
}

/// A row scaled by a scalar.
fn scale_row(a: ThreePart, k: Scalar) -> (r: ThreePart)
    ensures
        r.a() == fx_mul(a.a(), k@),
        r.b() == fx_mul(a.b(), k@),
        r.c() == fx_mul(a.c(), k@),
        r.w() == fx_mul(a.w(), k@),
{
    ThreePart(a.0.mul(k), a.1.mul(k), a.2.mul(k), a.3.mul(k))
}

/// A row divided by a scalar; division by zero yields zero.
fn div_row(a: ThreePart, k: Scalar) -> (r: ThreePart)
    ensures
        r.a() == fx_div(a.a(), k@),
        r.b() == fx_div(a.b(), k@),
        r.c() == fx_div(a.c(), k@),
        r.w() == fx_div(a.w(), k@),
{
    ThreePart(a.0.div(k), a.1.div(k), a.2.div(k), a.3.div(k))
}

impl FuzzyPartialEq<Matrix4f> for Matrix4f {
    open spec fn fuzzy_spec(self, other: Matrix4f) -> bool {
        forall|rr: int, cc: int|
            0 <= rr < 4 && 0 <= cc < 4 ==> fx_fuzzy_eq(
                #[trigger] self.at(rr, cc),
                other.at(rr, cc),
            )
    }

    fn fuzzy_eq(self, other: Matrix4f) -> (r: bool) {
        let r = self.r0.fuzzy_eq(other.r0) && self.r1.fuzzy_eq(other.r1) && self.r2.fuzzy_eq(
            other.r2,
        ) && self.r3.fuzzy_eq(other.r3);
        proof {
            if r {
                assert forall|rr: int, cc: int|
                    0 <= rr < 4 && 0 <= cc < 4 implies fx_fuzzy_eq(
                    #[trigger] self.at(rr, cc),
                    other.at(rr, cc),
                ) by {
                }
            } else {
                assert(!self.fuzzy_spec(other)) by {
                    if self.fuzzy_spec(other) {
                        assert(fx_fuzzy_eq(self.at(0, 0), other.at(0, 0)));
                        assert(fx_fuzzy_eq(self.at(0, 1), other.at(0, 1)));
                        assert(fx_fuzzy_eq(self.at(0, 2), other.at(0, 2)));
                        assert(fx_fuzzy_eq(self.at(0, 3), other.at(0, 3)));
                        assert(fx_fuzzy_eq(self.at(1, 0), other.at(1, 0)));
                        assert(fx_fuzzy_eq(self.at(1, 1), other.at(1, 1)));
                        assert(fx_fuzzy_eq(self.at(1, 2), other.at(1, 2)));
                        assert(fx_fuzzy_eq(self.at(1, 3), other.at(1, 3)));
                        assert(fx_fuzzy_eq(self.at(2, 0), other.at(2, 0)));
                        assert(fx_fuzzy_eq(self.at(2, 1), other.at(2, 1)));
                        assert(fx_fuzzy_eq(self.at(2, 2), other.at(2, 2)));
                        assert(fx_fuzzy_eq(self.at(2, 3), other.at(2, 3)));
                        assert(fx_fuzzy_eq(self.at(3, 0), other.at(3, 0)));
                        assert(fx_fuzzy_eq(self.at(3, 1), other.at(3, 1)));
                        assert(fx_fuzzy_eq(self.at(3, 2), other.at(3, 2)));
                        assert(fx_fuzzy_eq(self.at(3, 3), other.at(3, 3)));
                    }
                }
            }
        }
        r
    }
}

} // verus!
