//! Constructors for the affine transforms: translation, scale, rotation
//! about a principal axis or an arbitrary axis, and shear.
use vstd::prelude::*;

use crate::matrix::{
    apply_at, cof3_spec, cof4_spec, det2_spec, det4_spec, minor4_spec, mul4_at, sub3_spec,
    sub4_spec, Matrix4f,
};
use crate::point::Point;
use crate::rotation::Rotation;
use crate::scalar::{fx_add, fx_div, fx_fuzzy_eq, fx_mul, fx_neg, fx_sub, iabs, Scalar, SCALE};
use crate::three_part::ThreePart;
use crate::vector::Vector;

verus! {

/// Entry of a translation matrix.
pub open spec fn translate_at(x: int, y: int, z: int, r: int, c: int) -> int {
    if r == c {
        SCALE as int
    } else if c == 3 {
        if r == 0 {
            x
        } else if r == 1 {
            y
        } else {
            z
        }
    } else {
        0
    }
}

/// Entry of a non-uniform scale matrix.
pub open spec fn scale_at(x: int, y: int, z: int, r: int, c: int) -> int {
    if r != c {
        0
    } else if r == 0 {
        x
    } else if r == 1 {
        y
    } else if r == 2 {
        z
    } else {
        SCALE as int
    }
}

/// Entry of a cross-product matrix: applying it to a vector yields the cross
/// product with the given axis.
pub open spec fn cross_mat_at(x: int, y: int, z: int, r: int, c: int) -> int {
    if r == 0 && c == 1 {
        fx_neg(z)
    } else if r == 0 && c == 2 {
        y
    } else if r == 1 && c == 0 {
        z
    } else if r == 1 && c == 2 {
        fx_neg(x)
    } else if r == 2 && c == 0 {
        fx_neg(y)
    } else if r == 2 && c == 1 {
        x
    } else if r == 3 && c == 3 {
        SCALE as int
    } else {
        0
    }
}

/// Entry of the outer product of an axis direction with itself.
pub open spec fn outer_at(x: int, y: int, z: int, r: int, c: int) -> int {
    if r < 3 && c < 3 {
        let a = if r == 0 {
            x
        } else if r == 1 {
            y
        } else {
            z
        };
        let b = if c == 0 {
            x
        } else if c == 1 {
            y
        } else {
            z
        };
        fx_mul(a, b)
    } else {
        0
    }
}

/// Entry of the rotation matrix about an arbitrary axis, composed from the
/// identity, the cross-product matrix, and the outer product weighted by the
/// cosine, the sine, and one minus the cosine.
pub open spec fn rotate_around_at(x: int, y: int, z: int, s: int, c: int, r: int, cc: int) -> int {
    let ident = if r == cc {
        SCALE as int
    } else {
        0
    };
    fx_add(
        fx_add(fx_mul(ident, c), fx_mul(cross_mat_at(x, y, z, r, cc), s)),
        fx_mul(outer_at(x, y, z, r, cc), fx_sub(SCALE as int, c)),
    )
}

/// Entry of the rotation matrix about the first axis.
pub open spec fn rotate_x_at(s: int, c: int, r: int, cc: int) -> int {
    if (r == 0 && cc == 0) || (r == 3 && cc == 3) {
        SCALE as int
    } else if (r == 1 && cc == 1) || (r == 2 && cc == 2) {
        c
    } else if r == 1 && cc == 2 {
        fx_neg(s)
    } else if r == 2 && cc == 1 {
        s
    } else {
        0
    }
}

/// Entry of the rotation matrix about the second axis.
pub open spec fn rotate_y_at(s: int, c: int, r: int, cc: int) -> int {
    if (r == 1 && cc == 1) || (r == 3 && cc == 3) {
        SCALE as int
    } else if (r == 0 && cc == 0) || (r == 2 && cc == 2) {
        c
    } else if r == 0 && cc == 2 {
        s
    } else if r == 2 && cc == 0 {
        fx_neg(s)
    } else {
        0
    }
}

/// Entry of the rotation matrix about the third axis.
pub open spec fn rotate_z_at(s: int, c: int, r: int, cc: int) -> int {
    if (r == 2 && cc == 2) || (r == 3 && cc == 3) {
        SCALE as int
    } else if (r == 0 && cc == 0) || (r == 1 && cc == 1) {
        c
    } else if r == 0 && cc == 1 {
        fx_neg(s)
    } else if r == 1 && cc == 0 {
        s
    } else {
        0
    }
}

/// Entry of a shear matrix.
pub open spec fn shear_at(
    xy: int,
    xz: int,
    yx: int,
    yz: int,
    zx: int,
    zy: int,
    r: int,
    c: int,
) -> int {
    if r == c {
        SCALE as int
    } else if r == 0 && c == 1 {
        xy
    } else if r == 0 && c == 2 {
        xz
    } else if r == 1 && c == 0 {
        yx
    } else if r == 1 && c == 2 {
        yz
    } else if r == 2 && c == 0 {
        zx
    } else if r == 2 && c == 1 {
        zy
    } else {
        0
    }
}

/// The squared length of an axis given by components is fuzzily one.
pub open spec fn fuzzy_unit_axis(x: int, y: int, z: int) -> bool {
    fx_fuzzy_eq(fx_add(fx_add(fx_mul(x, x), fx_mul(y, y)), fx_mul(z, z)), SCALE as int)
}

/// The cofactors of a translation matrix, evaluated entry by entry: the
/// diagonal cofactors are one whole, the offset column carries the negated
/// offsets, and everything else vanishes.
#[verifier::rlimit(100)]
proof fn lemma_translate_cofactors(m: Matrix4f, tx: int, ty: int, tz: int)
    requires
        forall|rr: int, cc: int|
            0 <= rr < 4 && 0 <= cc < 4 ==> #[trigger] m.at(rr, cc) == translate_at(
                tx,
                ty,
                tz,
                rr,
                cc,
            ),
        iabs(tx) <= 2_000_000_000_000_000,
        iabs(ty) <= 2_000_000_000_000_000,
        iabs(tz) <= 2_000_000_000_000_000,
    ensures
        det4_spec(m) == SCALE as int,
        cof4_spec(m, 0, 0) == SCALE as int,
        cof4_spec(m, 1, 1) == SCALE as int,
        cof4_spec(m, 2, 2) == SCALE as int,
        cof4_spec(m, 1, 0) == 0,
        cof4_spec(m, 2, 0) == 0,
        cof4_spec(m, 0, 1) == 0,
        cof4_spec(m, 2, 1) == 0,
        cof4_spec(m, 0, 2) == 0,
        cof4_spec(m, 1, 2) == 0,
        cof4_spec(m, 3, 0) == -tx,
        cof4_spec(m, 3, 1) == -ty,
        cof4_spec(m, 3, 2) == -tz,
        cof4_spec(m, 0, 3) == 0,
        cof4_spec(m, 1, 3) == 0,
        cof4_spec(m, 2, 3) == 0,
        cof4_spec(m, 3, 3) == SCALE as int,
{
    let s_ = SCALE as int;
    crate::scalar::lemma_fx_one_identity(tx);
    crate::scalar::lemma_fx_one_identity(ty);
    crate::scalar::lemma_fx_one_identity(tz);
    crate::scalar::lemma_fx_one_identity(-tx);
    crate::scalar::lemma_fx_one_identity(-ty);
    crate::scalar::lemma_fx_one_identity(-tz);
    crate::scalar::lemma_fx_one_identity(s_);
    assert forall|a: int| true implies #[trigger] fx_mul(a, 0) == 0 && fx_mul(0, a) == 0 by {
        crate::scalar::lemma_fx_mul_zero(a);
    }
    assert(m.at(0, 0) == s_);
    assert(m.at(0, 1) == 0);
    assert(m.at(0, 2) == 0);
    assert(m.at(0, 3) == tx);
    assert(m.at(1, 0) == 0);
    assert(m.at(1, 1) == s_);
    assert(m.at(1, 2) == 0);
    assert(m.at(1, 3) == ty);
    assert(m.at(2, 0) == 0);
    assert(m.at(2, 1) == 0);
    assert(m.at(2, 2) == s_);
    assert(m.at(2, 3) == tz);
    assert(m.at(3, 0) == 0);
    assert(m.at(3, 1) == 0);
    assert(m.at(3, 2) == 0);
    assert(m.at(3, 3) == s_);
    assert(sub4_spec(m, 0, 0).at(0, 0) == s_);
    assert(sub4_spec(m, 0, 0).at(0, 1) == 0);
    assert(sub4_spec(m, 0, 0).at(0, 2) == ty);
    assert(sub4_spec(m, 0, 0).at(1, 0) == 0);
    assert(sub4_spec(m, 0, 0).at(1, 1) == s_);
    assert(sub4_spec(m, 0, 0).at(1, 2) == tz);
    assert(sub4_spec(m, 0, 0).at(2, 0) == 0);
    assert(sub4_spec(m, 0, 0).at(2, 1) == 0);
    assert(sub4_spec(m, 0, 0).at(2, 2) == s_);
    assert(sub3_spec(sub4_spec(m, 0, 0), 0, 0).at(0, 0) == s_);
    assert(sub3_spec(sub4_spec(m, 0, 0), 0, 0).at(0, 1) == tz);
    assert(sub3_spec(sub4_spec(m, 0, 0), 0, 0).at(1, 0) == 0);
    assert(sub3_spec(sub4_spec(m, 0, 0), 0, 0).at(1, 1) == s_);
    assert(det2_spec(sub3_spec(sub4_spec(m, 0, 0), 0, 0)) == s_);
    assert(cof3_spec(sub4_spec(m, 0, 0), 0, 0) == s_);
    assert(sub3_spec(sub4_spec(m, 0, 0), 0, 1).at(0, 0) == 0);
    assert(sub3_spec(sub4_spec(m, 0, 0), 0, 1).at(0, 1) == tz);
    assert(sub3_spec(sub4_spec(m, 0, 0), 0, 1).at(1, 0) == 0);
    assert(sub3_spec(sub4_spec(m, 0, 0), 0, 1).at(1, 1) == s_);
    assert(det2_spec(sub3_spec(sub4_spec(m, 0, 0), 0, 1)) == 0);
    assert(cof3_spec(sub4_spec(m, 0, 0), 0, 1) == 0);
    assert(sub3_spec(sub4_spec(m, 0, 0), 0, 2).at(0, 0) == 0);
    assert(sub3_spec(sub4_spec(m, 0, 0), 0, 2).at(0, 1) == s_);
    assert(sub3_spec(sub4_spec(m, 0, 0), 0, 2).at(1, 0) == 0);
    assert(sub3_spec(sub4_spec(m, 0, 0), 0, 2).at(1, 1) == 0);
    assert(det2_spec(sub3_spec(sub4_spec(m, 0, 0), 0, 2)) == 0);
    assert(cof3_spec(sub4_spec(m, 0, 0), 0, 2) == 0);
    assert(minor4_spec(m, 0, 0) == s_);
    assert(cof4_spec(m, 0, 0) == s_);
    assert(sub4_spec(m, 0, 1).at(0, 0) == 0);
    assert(sub4_spec(m, 0, 1).at(0, 1) == 0);
    assert(sub4_spec(m, 0, 1).at(0, 2) == ty);
    assert(sub4_spec(m, 0, 1).at(1, 0) == 0);
    assert(sub4_spec(m, 0, 1).at(1, 1) == s_);
    assert(sub4_spec(m, 0, 1).at(1, 2) == tz);
    assert(sub4_spec(m, 0, 1).at(2, 0) == 0);
    assert(sub4_spec(m, 0, 1).at(2, 1) == 0);
    assert(sub4_spec(m, 0, 1).at(2, 2) == s_);
    assert(sub3_spec(sub4_spec(m, 0, 1), 0, 0).at(0, 0) == s_);
    assert(sub3_spec(sub4_spec(m, 0, 1), 0, 0).at(0, 1) == tz);
    assert(sub3_spec(sub4_spec(m, 0, 1), 0, 0).at(1, 0) == 0);
    assert(sub3_spec(sub4_spec(m, 0, 1), 0, 0).at(1, 1) == s_);
    assert(det2_spec(sub3_spec(sub4_spec(m, 0, 1), 0, 0)) == s_);
    assert(cof3_spec(sub4_spec(m, 0, 1), 0, 0) == s_);
    assert(sub3_spec(sub4_spec(m, 0, 1), 0, 1).at(0, 0) == 0);
    assert(sub3_spec(sub4_spec(m, 0, 1), 0, 1).at(0, 1) == tz);
    assert(sub3_spec(sub4_spec(m, 0, 1), 0, 1).at(1, 0) == 0);
    assert(sub3_spec(sub4_spec(m, 0, 1), 0, 1).at(1, 1) == s_);
    assert(det2_spec(sub3_spec(sub4_spec(m, 0, 1), 0, 1)) == 0);
    assert(cof3_spec(sub4_spec(m, 0, 1), 0, 1) == 0);
    assert(sub3_spec(sub4_spec(m, 0, 1), 0, 2).at(0, 0) == 0);
    assert(sub3_spec(sub4_spec(m, 0, 1), 0, 2).at(0, 1) == s_);
    assert(sub3_spec(sub4_spec(m, 0, 1), 0, 2).at(1, 0) == 0);
    assert(sub3_spec(sub4_spec(m, 0, 1), 0, 2).at(1, 1) == 0);
    assert(det2_spec(sub3_spec(sub4_spec(m, 0, 1), 0, 2)) == 0);
    assert(cof3_spec(sub4_spec(m, 0, 1), 0, 2) == 0);
    assert(minor4_spec(m, 0, 1) == 0);
    assert(cof4_spec(m, 0, 1) == 0);
    assert(sub4_spec(m, 0, 2).at(0, 0) == 0);
    assert(sub4_spec(m, 0, 2).at(0, 1) == s_);
    assert(sub4_spec(m, 0, 2).at(0, 2) == ty);
    assert(sub4_spec(m, 0, 2).at(1, 0) == 0);
    assert(sub4_spec(m, 0, 2).at(1, 1) == 0);
    assert(sub4_spec(m, 0, 2).at(1, 2) == tz);
    assert(sub4_spec(m, 0, 2).at(2, 0) == 0);
    assert(sub4_spec(m, 0, 2).at(2, 1) == 0);
    assert(sub4_spec(m, 0, 2).at(2, 2) == s_);
    assert(sub3_spec(sub4_spec(m, 0, 2), 0, 0).at(0, 0) == 0);
    assert(sub3_spec(sub4_spec(m, 0, 2), 0, 0).at(0, 1) == tz);
    assert(sub3_spec(sub4_spec(m, 0, 2), 0, 0).at(1, 0) == 0);
    assert(sub3_spec(sub4_spec(m, 0, 2), 0, 0).at(1, 1) == s_);
    assert(det2_spec(sub3_spec(sub4_spec(m, 0, 2), 0, 0)) == 0);
    assert(cof3_spec(sub4_spec(m, 0, 2), 0, 0) == 0);
    assert(sub3_spec(sub4_spec(m, 0, 2), 0, 1).at(0, 0) == 0);
    assert(sub3_spec(sub4_spec(m, 0, 2), 0, 1).at(0, 1) == tz);
    assert(sub3_spec(sub4_spec(m, 0, 2), 0, 1).at(1, 0) == 0);
    assert(sub3_spec(sub4_spec(m, 0, 2), 0, 1).at(1, 1) == s_);
    assert(det2_spec(sub3_spec(sub4_spec(m, 0, 2), 0, 1)) == 0);
    assert(cof3_spec(sub4_spec(m, 0, 2), 0, 1) == 0);
    assert(sub3_spec(sub4_spec(m, 0, 2), 0, 2).at(0, 0) == 0);
    assert(sub3_spec(sub4_spec(m, 0, 2), 0, 2).at(0, 1) == 0);
    assert(sub3_spec(sub4_spec(m, 0, 2), 0, 2).at(1, 0) == 0);
    assert(sub3_spec(sub4_spec(m, 0, 2), 0, 2).at(1, 1) == 0);
    assert(det2_spec(sub3_spec(sub4_spec(m, 0, 2), 0, 2)) == 0);
    assert(cof3_spec(sub4_spec(m, 0, 2), 0, 2) == 0);
    assert(minor4_spec(m, 0, 2) == 0);
    assert(cof4_spec(m, 0, 2) == 0);
    assert(sub4_spec(m, 0, 3).at(0, 0) == 0);
    assert(sub4_spec(m, 0, 3).at(0, 1) == s_);
    assert(sub4_spec(m, 0, 3).at(0, 2) == 0);
    assert(sub4_spec(m, 0, 3).at(1, 0) == 0);
    assert(sub4_spec(m, 0, 3).at(1, 1) == 0);
    assert(sub4_spec(m, 0, 3).at(1, 2) == s_);
    assert(sub4_spec(m, 0, 3).at(2, 0) == 0);
    assert(sub4_spec(m, 0, 3).at(2, 1) == 0);
    assert(sub4_spec(m, 0, 3).at(2, 2) == 0);
    assert(sub3_spec(sub4_spec(m, 0, 3), 0, 0).at(0, 0) == 0);
    assert(sub3_spec(sub4_spec(m, 0, 3), 0, 0).at(0, 1) == s_);
    assert(sub3_spec(sub4_spec(m, 0, 3), 0, 0).at(1, 0) == 0);
    assert(sub3_spec(sub4_spec(m, 0, 3), 0, 0).at(1, 1) == 0);
    assert(det2_spec(sub3_spec(sub4_spec(m, 0, 3), 0, 0)) == 0);
    assert(cof3_spec(sub4_spec(m, 0, 3), 0, 0) == 0);
    assert(sub3_spec(sub4_spec(m, 0, 3), 0, 1).at(0, 0) == 0);
    assert(sub3_spec(sub4_spec(m, 0, 3), 0, 1).at(0, 1) == s_);
    assert(sub3_spec(sub4_spec(m, 0, 3), 0, 1).at(1, 0) == 0);
    assert(sub3_spec(sub4_spec(m, 0, 3), 0, 1).at(1, 1) == 0);
    assert(det2_spec(sub3_spec(sub4_spec(m, 0, 3), 0, 1)) == 0);
    assert(cof3_spec(sub4_spec(m, 0, 3), 0, 1) == 0);
    assert(sub3_spec(sub4_spec(m, 0, 3), 0, 2).at(0, 0) == 0);
    assert(sub3_spec(sub4_spec(m, 0, 3), 0, 2).at(0, 1) == 0);
    assert(sub3_spec(sub4_spec(m, 0, 3), 0, 2).at(1, 0) == 0);
    assert(sub3_spec(sub4_spec(m, 0, 3), 0, 2).at(1, 1) == 0);
    assert(det2_spec(sub3_spec(sub4_spec(m, 0, 3), 0, 2)) == 0);
    assert(cof3_spec(sub4_spec(m, 0, 3), 0, 2) == 0);
    assert(minor4_spec(m, 0, 3) == 0);
    assert(cof4_spec(m, 0, 3) == 0);
    assert(sub4_spec(m, 1, 0).at(0, 0) == 0);
    assert(sub4_spec(m, 1, 0).at(0, 1) == 0);
    assert(sub4_spec(m, 1, 0).at(0, 2) == tx);
    assert(sub4_spec(m, 1, 0).at(1, 0) == 0);
    assert(sub4_spec(m, 1, 0).at(1, 1) == s_);
    assert(sub4_spec(m, 1, 0).at(1, 2) == tz);
    assert(sub4_spec(m, 1, 0).at(2, 0) == 0);
    assert(sub4_spec(m, 1, 0).at(2, 1) == 0);
    assert(sub4_spec(m, 1, 0).at(2, 2) == s_);
    assert(sub3_spec(sub4_spec(m, 1, 0), 0, 0).at(0, 0) == s_);
    assert(sub3_spec(sub4_spec(m, 1, 0), 0, 0).at(0, 1) == tz);
    assert(sub3_spec(sub4_spec(m, 1, 0), 0, 0).at(1, 0) == 0);
    assert(sub3_spec(sub4_spec(m, 1, 0), 0, 0).at(1, 1) == s_);
    assert(det2_spec(sub3_spec(sub4_spec(m, 1, 0), 0, 0)) == s_);
    assert(cof3_spec(sub4_spec(m, 1, 0), 0, 0) == s_);
    assert(sub3_spec(sub4_spec(m, 1, 0), 0, 1).at(0, 0) == 0);
    assert(sub3_spec(sub4_spec(m, 1, 0), 0, 1).at(0, 1) == tz);
    assert(sub3_spec(sub4_spec(m, 1, 0), 0, 1).at(1, 0) == 0);
    assert(sub3_spec(sub4_spec(m, 1, 0), 0, 1).at(1, 1) == s_);
    assert(det2_spec(sub3_spec(sub4_spec(m, 1, 0), 0, 1)) == 0);
    assert(cof3_spec(sub4_spec(m, 1, 0), 0, 1) == 0);
    assert(sub3_spec(sub4_spec(m, 1, 0), 0, 2).at(0, 0) == 0);
    assert(sub3_spec(sub4_spec(m, 1, 0), 0, 2).at(0, 1) == s_);
    assert(sub3_spec(sub4_spec(m, 1, 0), 0, 2).at(1, 0) == 0);
    assert(sub3_spec(sub4_spec(m, 1, 0), 0, 2).at(1, 1) == 0);
    assert(det2_spec(sub3_spec(sub4_spec(m, 1, 0), 0, 2)) == 0);
    assert(cof3_spec(sub4_spec(m, 1, 0), 0, 2) == 0);
    assert(minor4_spec(m, 1, 0) == 0);
    assert(cof4_spec(m, 1, 0) == 0);
    assert(sub4_spec(m, 1, 1).at(0, 0) == s_);
    assert(sub4_spec(m, 1, 1).at(0, 1) == 0);
    assert(sub4_spec(m, 1, 1).at(0, 2) == tx);
    assert(sub4_spec(m, 1, 1).at(1, 0) == 0);
    assert(sub4_spec(m, 1, 1).at(1, 1) == s_);
    assert(sub4_spec(m, 1, 1).at(1, 2) == tz);
    assert(sub4_spec(m, 1, 1).at(2, 0) == 0);
    assert(sub4_spec(m, 1, 1).at(2, 1) == 0);
    assert(sub4_spec(m, 1, 1).at(2, 2) == s_);
    assert(sub3_spec(sub4_spec(m, 1, 1), 0, 0).at(0, 0) == s_);
    assert(sub3_spec(sub4_spec(m, 1, 1), 0, 0).at(0, 1) == tz);
    assert(sub3_spec(sub4_spec(m, 1, 1), 0, 0).at(1, 0) == 0);
    assert(sub3_spec(sub4_spec(m, 1, 1), 0, 0).at(1, 1) == s_);
    assert(det2_spec(sub3_spec(sub4_spec(m, 1, 1), 0, 0)) == s_);
    assert(cof3_spec(sub4_spec(m, 1, 1), 0, 0) == s_);
    assert(sub3_spec(sub4_spec(m, 1, 1), 0, 1).at(0, 0) == 0);
    assert(sub3_spec(sub4_spec(m, 1, 1), 0, 1).at(0, 1) == tz);
    assert(sub3_spec(sub4_spec(m, 1, 1), 0, 1).at(1, 0) == 0);
    assert(sub3_spec(sub4_spec(m, 1, 1), 0, 1).at(1, 1) == s_);
    assert(det2_spec(sub3_spec(sub4_spec(m, 1, 1), 0, 1)) == 0);
    assert(cof3_spec(sub4_spec(m, 1, 1), 0, 1) == 0);
    assert(sub3_spec(sub4_spec(m, 1, 1), 0, 2).at(0, 0) == 0);
    assert(sub3_spec(sub4_spec(m, 1, 1), 0, 2).at(0, 1) == s_);
    assert(sub3_spec(sub4_spec(m, 1, 1), 0, 2).at(1, 0) == 0);
    assert(sub3_spec(sub4_spec(m, 1, 1), 0, 2).at(1, 1) == 0);
    assert(det2_spec(sub3_spec(sub4_spec(m, 1, 1), 0, 2)) == 0);
    assert(cof3_spec(sub4_spec(m, 1, 1), 0, 2) == 0);
    assert(minor4_spec(m, 1, 1) == s_);
    assert(cof4_spec(m, 1, 1) == s_);
    assert(sub4_spec(m, 1, 2).at(0, 0) == s_);
    assert(sub4_spec(m, 1, 2).at(0, 1) == 0);
    assert(sub4_spec(m, 1, 2).at(0, 2) == tx);
    assert(sub4_spec(m, 1, 2).at(1, 0) == 0);
    assert(sub4_spec(m, 1, 2).at(1, 1) == 0);
    assert(sub4_spec(m, 1, 2).at(1, 2) == tz);
    assert(sub4_spec(m, 1, 2).at(2, 0) == 0);
    assert(sub4_spec(m, 1, 2).at(2, 1) == 0);
    assert(sub4_spec(m, 1, 2).at(2, 2) == s_);
    assert(sub3_spec(sub4_spec(m, 1, 2), 0, 0).at(0, 0) == 0);
    assert(sub3_spec(sub4_spec(m, 1, 2), 0, 0).at(0, 1) == tz);
    assert(sub3_spec(sub4_spec(m, 1, 2), 0, 0).at(1, 0) == 0);
    assert(sub3_spec(sub4_spec(m, 1, 2), 0, 0).at(1, 1) == s_);
    assert(det2_spec(sub3_spec(sub4_spec(m, 1, 2), 0, 0)) == 0);
    assert(cof3_spec(sub4_spec(m, 1, 2), 0, 0) == 0);
    assert(sub3_spec(sub4_spec(m, 1, 2), 0, 1).at(0, 0) == 0);
    assert(sub3_spec(sub4_spec(m, 1, 2), 0, 1).at(0, 1) == tz);
    assert(sub3_spec(sub4_spec(m, 1, 2), 0, 1).at(1, 0) == 0);
    assert(sub3_spec(sub4_spec(m, 1, 2), 0, 1).at(1, 1) == s_);
    assert(det2_spec(sub3_spec(sub4_spec(m, 1, 2), 0, 1)) == 0);
    assert(cof3_spec(sub4_spec(m, 1, 2), 0, 1) == 0);
    assert(sub3_spec(sub4_spec(m, 1, 2), 0, 2).at(0, 0) == 0);
    assert(sub3_spec(sub4_spec(m, 1, 2), 0, 2).at(0, 1) == 0);
    assert(sub3_spec(sub4_spec(m, 1, 2), 0, 2).at(1, 0) == 0);
    assert(sub3_spec(sub4_spec(m, 1, 2), 0, 2).at(1, 1) == 0);
    assert(det2_spec(sub3_spec(sub4_spec(m, 1, 2), 0, 2)) == 0);
    assert(cof3_spec(sub4_spec(m, 1, 2), 0, 2) == 0);
    assert(minor4_spec(m, 1, 2) == 0);
    assert(cof4_spec(m, 1, 2) == 0);
    assert(sub4_spec(m, 2, 0).at(0, 0) == 0);
    assert(sub4_spec(m, 2, 0).at(0, 1) == 0);
    assert(sub4_spec(m, 2, 0).at(0, 2) == tx);
    assert(sub4_spec(m, 2, 0).at(1, 0) == s_);
    assert(sub4_spec(m, 2, 0).at(1, 1) == 0);
    assert(sub4_spec(m, 2, 0).at(1, 2) == ty);
    assert(sub4_spec(m, 2, 0).at(2, 0) == 0);
    assert(sub4_spec(m, 2, 0).at(2, 1) == 0);
    assert(sub4_spec(m, 2, 0).at(2, 2) == s_);
    assert(sub3_spec(sub4_spec(m, 2, 0), 0, 0).at(0, 0) == 0);
    assert(sub3_spec(sub4_spec(m, 2, 0), 0, 0).at(0, 1) == ty);
    assert(sub3_spec(sub4_spec(m, 2, 0), 0, 0).at(1, 0) == 0);
    assert(sub3_spec(sub4_spec(m, 2, 0), 0, 0).at(1, 1) == s_);
    assert(det2_spec(sub3_spec(sub4_spec(m, 2, 0), 0, 0)) == 0);
    assert(cof3_spec(sub4_spec(m, 2, 0), 0, 0) == 0);
    assert(sub3_spec(sub4_spec(m, 2, 0), 0, 1).at(0, 0) == s_);
    assert(sub3_spec(sub4_spec(m, 2, 0), 0, 1).at(0, 1) == ty);
    assert(sub3_spec(sub4_spec(m, 2, 0), 0, 1).at(1, 0) == 0);
    assert(sub3_spec(sub4_spec(m, 2, 0), 0, 1).at(1, 1) == s_);
    assert(det2_spec(sub3_spec(sub4_spec(m, 2, 0), 0, 1)) == s_);
    assert(cof3_spec(sub4_spec(m, 2, 0), 0, 1) == -s_);
    assert(sub3_spec(sub4_spec(m, 2, 0), 0, 2).at(0, 0) == s_);
    assert(sub3_spec(sub4_spec(m, 2, 0), 0, 2).at(0, 1) == 0);
    assert(sub3_spec(sub4_spec(m, 2, 0), 0, 2).at(1, 0) == 0);
    assert(sub3_spec(sub4_spec(m, 2, 0), 0, 2).at(1, 1) == 0);
    assert(det2_spec(sub3_spec(sub4_spec(m, 2, 0), 0, 2)) == 0);
    assert(cof3_spec(sub4_spec(m, 2, 0), 0, 2) == 0);
    assert(minor4_spec(m, 2, 0) == 0);
    assert(cof4_spec(m, 2, 0) == 0);
    assert(sub4_spec(m, 2, 1).at(0, 0) == s_);
    assert(sub4_spec(m, 2, 1).at(0, 1) == 0);
    assert(sub4_spec(m, 2, 1).at(0, 2) == tx);
    assert(sub4_spec(m, 2, 1).at(1, 0) == 0);
    assert(sub4_spec(m, 2, 1).at(1, 1) == 0);
    assert(sub4_spec(m, 2, 1).at(1, 2) == ty);
    assert(sub4_spec(m, 2, 1).at(2, 0) == 0);
    assert(sub4_spec(m, 2, 1).at(2, 1) == 0);
    assert(sub4_spec(m, 2, 1).at(2, 2) == s_);
    assert(sub3_spec(sub4_spec(m, 2, 1), 0, 0).at(0, 0) == 0);
    assert(sub3_spec(sub4_spec(m, 2, 1), 0, 0).at(0, 1) == ty);
    assert(sub3_spec(sub4_spec(m, 2, 1), 0, 0).at(1, 0) == 0);
    assert(sub3_spec(sub4_spec(m, 2, 1), 0, 0).at(1, 1) == s_);
    assert(det2_spec(sub3_spec(sub4_spec(m, 2, 1), 0, 0)) == 0);
    assert(cof3_spec(sub4_spec(m, 2, 1), 0, 0) == 0);
    assert(sub3_spec(sub4_spec(m, 2, 1), 0, 1).at(0, 0) == 0);
    assert(sub3_spec(sub4_spec(m, 2, 1), 0, 1).at(0, 1) == ty);
    assert(sub3_spec(sub4_spec(m, 2, 1), 0, 1).at(1, 0) == 0);
    assert(sub3_spec(sub4_spec(m, 2, 1), 0, 1).at(1, 1) == s_);
    assert(det2_spec(sub3_spec(sub4_spec(m, 2, 1), 0, 1)) == 0);
    assert(cof3_spec(sub4_spec(m, 2, 1), 0, 1) == 0);
    assert(sub3_spec(sub4_spec(m, 2, 1), 0, 2).at(0, 0) == 0);
    assert(sub3_spec(sub4_spec(m, 2, 1), 0, 2).at(0, 1) == 0);
    assert(sub3_spec(sub4_spec(m, 2, 1), 0, 2).at(1, 0) == 0);
    assert(sub3_spec(sub4_spec(m, 2, 1), 0, 2).at(1, 1) == 0);
    assert(det2_spec(sub3_spec(sub4_spec(m, 2, 1), 0, 2)) == 0);
    assert(cof3_spec(sub4_spec(m, 2, 1), 0, 2) == 0);
    assert(minor4_spec(m, 2, 1) == 0);
    assert(cof4_spec(m, 2, 1) == 0);
    assert(sub4_spec(m, 2, 2).at(0, 0) == s_);
    assert(sub4_spec(m, 2, 2).at(0, 1) == 0);
    assert(sub4_spec(m, 2, 2).at(0, 2) == tx);
    assert(sub4_spec(m, 2, 2).at(1, 0) == 0);
    assert(sub4_spec(m, 2, 2).at(1, 1) == s_);
    assert(sub4_spec(m, 2, 2).at(1, 2) == ty);
    assert(sub4_spec(m, 2, 2).at(2, 0) == 0);
    assert(sub4_spec(m, 2, 2).at(2, 1) == 0);
    assert(sub4_spec(m, 2, 2).at(2, 2) == s_);
    assert(sub3_spec(sub4_spec(m, 2, 2), 0, 0).at(0, 0) == s_);
    assert(sub3_spec(sub4_spec(m, 2, 2), 0, 0).at(0, 1) == ty);
    assert(sub3_spec(sub4_spec(m, 2, 2), 0, 0).at(1, 0) == 0);
    assert(sub3_spec(sub4_spec(m, 2, 2), 0, 0).at(1, 1) == s_);
    assert(det2_spec(sub3_spec(sub4_spec(m, 2, 2), 0, 0)) == s_);
    assert(cof3_spec(sub4_spec(m, 2, 2), 0, 0) == s_);
    assert(sub3_spec(sub4_spec(m, 2, 2), 0, 1).at(0, 0) == 0);
    assert(sub3_spec(sub4_spec(m, 2, 2), 0, 1).at(0, 1) == ty);
    assert(sub3_spec(sub4_spec(m, 2, 2), 0, 1).at(1, 0) == 0);
    assert(sub3_spec(sub4_spec(m, 2, 2), 0, 1).at(1, 1) == s_);
    assert(det2_spec(sub3_spec(sub4_spec(m, 2, 2), 0, 1)) == 0);
    assert(cof3_spec(sub4_spec(m, 2, 2), 0, 1) == 0);
    assert(sub3_spec(sub4_spec(m, 2, 2), 0, 2).at(0, 0) == 0);
    assert(sub3_spec(sub4_spec(m, 2, 2), 0, 2).at(0, 1) == s_);
    assert(sub3_spec(sub4_spec(m, 2, 2), 0, 2).at(1, 0) == 0);
    assert(sub3_spec(sub4_spec(m, 2, 2), 0, 2).at(1, 1) == 0);
    assert(det2_spec(sub3_spec(sub4_spec(m, 2, 2), 0, 2)) == 0);
    assert(cof3_spec(sub4_spec(m, 2, 2), 0, 2) == 0);
    assert(minor4_spec(m, 2, 2) == s_);
    assert(cof4_spec(m, 2, 2) == s_);
    assert(sub4_spec(m, 3, 0).at(0, 0) == 0);
    assert(sub4_spec(m, 3, 0).at(0, 1) == 0);
    assert(sub4_spec(m, 3, 0).at(0, 2) == tx);
    assert(sub4_spec(m, 3, 0).at(1, 0) == s_);
    assert(sub4_spec(m, 3, 0).at(1, 1) == 0);
    assert(sub4_spec(m, 3, 0).at(1, 2) == ty);
    assert(sub4_spec(m, 3, 0).at(2, 0) == 0);
    assert(sub4_spec(m, 3, 0).at(2, 1) == s_);
    assert(sub4_spec(m, 3, 0).at(2, 2) == tz);
    assert(sub3_spec(sub4_spec(m, 3, 0), 0, 0).at(0, 0) == 0);
    assert(sub3_spec(sub4_spec(m, 3, 0), 0, 0).at(0, 1) == ty);
    assert(sub3_spec(sub4_spec(m, 3, 0), 0, 0).at(1, 0) == s_);
    assert(sub3_spec(sub4_spec(m, 3, 0), 0, 0).at(1, 1) == tz);
    assert(det2_spec(sub3_spec(sub4_spec(m, 3, 0), 0, 0)) == -ty);
    assert(cof3_spec(sub4_spec(m, 3, 0), 0, 0) == -ty);
    assert(sub3_spec(sub4_spec(m, 3, 0), 0, 1).at(0, 0) == s_);
    assert(sub3_spec(sub4_spec(m, 3, 0), 0, 1).at(0, 1) == ty);
    assert(sub3_spec(sub4_spec(m, 3, 0), 0, 1).at(1, 0) == 0);
    assert(sub3_spec(sub4_spec(m, 3, 0), 0, 1).at(1, 1) == tz);
    assert(det2_spec(sub3_spec(sub4_spec(m, 3, 0), 0, 1)) == tz);
    assert(cof3_spec(sub4_spec(m, 3, 0), 0, 1) == -tz);
    assert(sub3_spec(sub4_spec(m, 3, 0), 0, 2).at(0, 0) == s_);
    assert(sub3_spec(sub4_spec(m, 3, 0), 0, 2).at(0, 1) == 0);
    assert(sub3_spec(sub4_spec(m, 3, 0), 0, 2).at(1, 0) == 0);
    assert(sub3_spec(sub4_spec(m, 3, 0), 0, 2).at(1, 1) == s_);
    assert(det2_spec(sub3_spec(sub4_spec(m, 3, 0), 0, 2)) == s_);
    assert(cof3_spec(sub4_spec(m, 3, 0), 0, 2) == s_);
    assert(minor4_spec(m, 3, 0) == tx);
    assert(cof4_spec(m, 3, 0) == -tx);
    assert(sub4_spec(m, 3, 1).at(0, 0) == s_);
    assert(sub4_spec(m, 3, 1).at(0, 1) == 0);
    assert(sub4_spec(m, 3, 1).at(0, 2) == tx);
    assert(sub4_spec(m, 3, 1).at(1, 0) == 0);
    assert(sub4_spec(m, 3, 1).at(1, 1) == 0);
    assert(sub4_spec(m, 3, 1).at(1, 2) == ty);
    assert(sub4_spec(m, 3, 1).at(2, 0) == 0);
    assert(sub4_spec(m, 3, 1).at(2, 1) == s_);
    assert(sub4_spec(m, 3, 1).at(2, 2) == tz);
    assert(sub3_spec(sub4_spec(m, 3, 1), 0, 0).at(0, 0) == 0);
    assert(sub3_spec(sub4_spec(m, 3, 1), 0, 0).at(0, 1) == ty);
    assert(sub3_spec(sub4_spec(m, 3, 1), 0, 0).at(1, 0) == s_);
    assert(sub3_spec(sub4_spec(m, 3, 1), 0, 0).at(1, 1) == tz);
    assert(det2_spec(sub3_spec(sub4_spec(m, 3, 1), 0, 0)) == -ty);
    assert(cof3_spec(sub4_spec(m, 3, 1), 0, 0) == -ty);
    assert(sub3_spec(sub4_spec(m, 3, 1), 0, 1).at(0, 0) == 0);
    assert(sub3_spec(sub4_spec(m, 3, 1), 0, 1).at(0, 1) == ty);
    assert(sub3_spec(sub4_spec(m, 3, 1), 0, 1).at(1, 0) == 0);
    assert(sub3_spec(sub4_spec(m, 3, 1), 0, 1).at(1, 1) == tz);
    assert(det2_spec(sub3_spec(sub4_spec(m, 3, 1), 0, 1)) == 0);
    assert(cof3_spec(sub4_spec(m, 3, 1), 0, 1) == 0);
    assert(sub3_spec(sub4_spec(m, 3, 1), 0, 2).at(0, 0) == 0);
    assert(sub3_spec(sub4_spec(m, 3, 1), 0, 2).at(0, 1) == 0);
    assert(sub3_spec(sub4_spec(m, 3, 1), 0, 2).at(1, 0) == 0);
    assert(sub3_spec(sub4_spec(m, 3, 1), 0, 2).at(1, 1) == s_);
    assert(det2_spec(sub3_spec(sub4_spec(m, 3, 1), 0, 2)) == 0);
    assert(cof3_spec(sub4_spec(m, 3, 1), 0, 2) == 0);
    assert(minor4_spec(m, 3, 1) == -ty);
    assert(cof4_spec(m, 3, 1) == -ty);
    assert(sub4_spec(m, 3, 2).at(0, 0) == s_);
    assert(sub4_spec(m, 3, 2).at(0, 1) == 0);
    assert(sub4_spec(m, 3, 2).at(0, 2) == tx);
    assert(sub4_spec(m, 3, 2).at(1, 0) == 0);
    assert(sub4_spec(m, 3, 2).at(1, 1) == s_);
    assert(sub4_spec(m, 3, 2).at(1, 2) == ty);
    assert(sub4_spec(m, 3, 2).at(2, 0) == 0);
    assert(sub4_spec(m, 3, 2).at(2, 1) == 0);
    assert(sub4_spec(m, 3, 2).at(2, 2) == tz);
    assert(sub3_spec(sub4_spec(m, 3, 2), 0, 0).at(0, 0) == s_);
    assert(sub3_spec(sub4_spec(m, 3, 2), 0, 0).at(0, 1) == ty);
    assert(sub3_spec(sub4_spec(m, 3, 2), 0, 0).at(1, 0) == 0);
    assert(sub3_spec(sub4_spec(m, 3, 2), 0, 0).at(1, 1) == tz);
    assert(det2_spec(sub3_spec(sub4_spec(m, 3, 2), 0, 0)) == tz);
    assert(cof3_spec(sub4_spec(m, 3, 2), 0, 0) == tz);
    assert(sub3_spec(sub4_spec(m, 3, 2), 0, 1).at(0, 0) == 0);
    assert(sub3_spec(sub4_spec(m, 3, 2), 0, 1).at(0, 1) == ty);
    assert(sub3_spec(sub4_spec(m, 3, 2), 0, 1).at(1, 0) == 0);
    assert(sub3_spec(sub4_spec(m, 3, 2), 0, 1).at(1, 1) == tz);
    assert(det2_spec(sub3_spec(sub4_spec(m, 3, 2), 0, 1)) == 0);
    assert(cof3_spec(sub4_spec(m, 3, 2), 0, 1) == 0);
    assert(sub3_spec(sub4_spec(m, 3, 2), 0, 2).at(0, 0) == 0);
    assert(sub3_spec(sub4_spec(m, 3, 2), 0, 2).at(0, 1) == s_);
    assert(sub3_spec(sub4_spec(m, 3, 2), 0, 2).at(1, 0) == 0);
    assert(sub3_spec(sub4_spec(m, 3, 2), 0, 2).at(1, 1) == 0);
    assert(det2_spec(sub3_spec(sub4_spec(m, 3, 2), 0, 2)) == 0);
    assert(cof3_spec(sub4_spec(m, 3, 2), 0, 2) == 0);
    assert(minor4_spec(m, 3, 2) == tz);
    assert(cof4_spec(m, 3, 2) == -tz);
    assert(sub4_spec(m, 1, 3).at(0, 0) == s_);
    assert(sub4_spec(m, 1, 3).at(0, 1) == 0);
    assert(sub4_spec(m, 1, 3).at(0, 2) == 0);
    assert(sub4_spec(m, 1, 3).at(1, 0) == 0);
    assert(sub4_spec(m, 1, 3).at(1, 1) == 0);
    assert(sub4_spec(m, 1, 3).at(1, 2) == s_);
    assert(sub4_spec(m, 1, 3).at(2, 0) == 0);
    assert(sub4_spec(m, 1, 3).at(2, 1) == 0);
    assert(sub4_spec(m, 1, 3).at(2, 2) == 0);
    assert(sub3_spec(sub4_spec(m, 1, 3), 0, 0).at(0, 0) == 0);
    assert(sub3_spec(sub4_spec(m, 1, 3), 0, 0).at(0, 1) == s_);
    assert(sub3_spec(sub4_spec(m, 1, 3), 0, 0).at(1, 0) == 0);
    assert(sub3_spec(sub4_spec(m, 1, 3), 0, 0).at(1, 1) == 0);
    assert(det2_spec(sub3_spec(sub4_spec(m, 1, 3), 0, 0)) == 0);
    assert(cof3_spec(sub4_spec(m, 1, 3), 0, 0) == 0);
    assert(sub3_spec(sub4_spec(m, 1, 3), 0, 1).at(0, 0) == 0);
    assert(sub3_spec(sub4_spec(m, 1, 3), 0, 1).at(0, 1) == s_);
    assert(sub3_spec(sub4_spec(m, 1, 3), 0, 1).at(1, 0) == 0);
    assert(sub3_spec(sub4_spec(m, 1, 3), 0, 1).at(1, 1) == 0);
    assert(det2_spec(sub3_spec(sub4_spec(m, 1, 3), 0, 1)) == 0);
    assert(cof3_spec(sub4_spec(m, 1, 3), 0, 1) == 0);
    assert(sub3_spec(sub4_spec(m, 1, 3), 0, 2).at(0, 0) == 0);
    assert(sub3_spec(sub4_spec(m, 1, 3), 0, 2).at(0, 1) == 0);
    assert(sub3_spec(sub4_spec(m, 1, 3), 0, 2).at(1, 0) == 0);
    assert(sub3_spec(sub4_spec(m, 1, 3), 0, 2).at(1, 1) == 0);
    assert(det2_spec(sub3_spec(sub4_spec(m, 1, 3), 0, 2)) == 0);
    assert(cof3_spec(sub4_spec(m, 1, 3), 0, 2) == 0);
    assert(minor4_spec(m, 1, 3) == 0);
    assert(cof4_spec(m, 1, 3) == 0);
    assert(sub4_spec(m, 2, 3).at(0, 0) == s_);
    assert(sub4_spec(m, 2, 3).at(0, 1) == 0);
    assert(sub4_spec(m, 2, 3).at(0, 2) == 0);
    assert(sub4_spec(m, 2, 3).at(1, 0) == 0);
    assert(sub4_spec(m, 2, 3).at(1, 1) == s_);
    assert(sub4_spec(m, 2, 3).at(1, 2) == 0);
    assert(sub4_spec(m, 2, 3).at(2, 0) == 0);
    assert(sub4_spec(m, 2, 3).at(2, 1) == 0);
    assert(sub4_spec(m, 2, 3).at(2, 2) == 0);
    assert(sub3_spec(sub4_spec(m, 2, 3), 0, 0).at(0, 0) == s_);
    assert(sub3_spec(sub4_spec(m, 2, 3), 0, 0).at(0, 1) == 0);
    assert(sub3_spec(sub4_spec(m, 2, 3), 0, 0).at(1, 0) == 0);
    assert(sub3_spec(sub4_spec(m, 2, 3), 0, 0).at(1, 1) == 0);
    assert(det2_spec(sub3_spec(sub4_spec(m, 2, 3), 0, 0)) == 0);
    assert(cof3_spec(sub4_spec(m, 2, 3), 0, 0) == 0);
    assert(sub3_spec(sub4_spec(m, 2, 3), 0, 1).at(0, 0) == 0);
    assert(sub3_spec(sub4_spec(m, 2, 3), 0, 1).at(0, 1) == 0);
    assert(sub3_spec(sub4_spec(m, 2, 3), 0, 1).at(1, 0) == 0);
    assert(sub3_spec(sub4_spec(m, 2, 3), 0, 1).at(1, 1) == 0);
    assert(det2_spec(sub3_spec(sub4_spec(m, 2, 3), 0, 1)) == 0);
    assert(cof3_spec(sub4_spec(m, 2, 3), 0, 1) == 0);
    assert(sub3_spec(sub4_spec(m, 2, 3), 0, 2).at(0, 0) == 0);
    assert(sub3_spec(sub4_spec(m, 2, 3), 0, 2).at(0, 1) == s_);
    assert(sub3_spec(sub4_spec(m, 2, 3), 0, 2).at(1, 0) == 0);
    assert(sub3_spec(sub4_spec(m, 2, 3), 0, 2).at(1, 1) == 0);
    assert(det2_spec(sub3_spec(sub4_spec(m, 2, 3), 0, 2)) == 0);
    assert(cof3_spec(sub4_spec(m, 2, 3), 0, 2) == 0);
    assert(minor4_spec(m, 2, 3) == 0);
    assert(cof4_spec(m, 2, 3) == 0);
    assert(sub4_spec(m, 3, 3).at(0, 0) == s_);
    assert(sub4_spec(m, 3, 3).at(0, 1) == 0);
    assert(sub4_spec(m, 3, 3).at(0, 2) == 0);
    assert(sub4_spec(m, 3, 3).at(1, 0) == 0);
    assert(sub4_spec(m, 3, 3).at(1, 1) == s_);
    assert(sub4_spec(m, 3, 3).at(1, 2) == 0);
    assert(sub4_spec(m, 3, 3).at(2, 0) == 0);
    assert(sub4_spec(m, 3, 3).at(2, 1) == 0);
    assert(sub4_spec(m, 3, 3).at(2, 2) == s_);
    assert(sub3_spec(sub4_spec(m, 3, 3), 0, 0).at(0, 0) == s_);
    assert(sub3_spec(sub4_spec(m, 3, 3), 0, 0).at(0, 1) == 0);
    assert(sub3_spec(sub4_spec(m, 3, 3), 0, 0).at(1, 0) == 0);
    assert(sub3_spec(sub4_spec(m, 3, 3), 0, 0).at(1, 1) == s_);
    assert(det2_spec(sub3_spec(sub4_spec(m, 3, 3), 0, 0)) == s_);
    assert(cof3_spec(sub4_spec(m, 3, 3), 0, 0) == s_);
    assert(sub3_spec(sub4_spec(m, 3, 3), 0, 1).at(0, 0) == 0);
    assert(sub3_spec(sub4_spec(m, 3, 3), 0, 1).at(0, 1) == 0);
    assert(sub3_spec(sub4_spec(m, 3, 3), 0, 1).at(1, 0) == 0);
    assert(sub3_spec(sub4_spec(m, 3, 3), 0, 1).at(1, 1) == s_);
    assert(det2_spec(sub3_spec(sub4_spec(m, 3, 3), 0, 1)) == 0);
    assert(cof3_spec(sub4_spec(m, 3, 3), 0, 1) == 0);
    assert(sub3_spec(sub4_spec(m, 3, 3), 0, 2).at(0, 0) == 0);
    assert(sub3_spec(sub4_spec(m, 3, 3), 0, 2).at(0, 1) == s_);
    assert(sub3_spec(sub4_spec(m, 3, 3), 0, 2).at(1, 0) == 0);
    assert(sub3_spec(sub4_spec(m, 3, 3), 0, 2).at(1, 1) == 0);
    assert(det2_spec(sub3_spec(sub4_spec(m, 3, 3), 0, 2)) == 0);
    assert(cof3_spec(sub4_spec(m, 3, 3), 0, 2) == 0);
    assert(minor4_spec(m, 3, 3) == s_);
    assert(cof4_spec(m, 3, 3) == s_);
    assert(det4_spec(m) == s_);
}

/// Law: a translation's computed inverse restores a translated point
/// exactly — the provable instance of the transform round trip. The inverse
/// hypothesis is precisely what `Matrix4f::inverse` ensures for its
/// geometric rows, so the law applies to the cached inverse as built. A
/// general transform accumulates up to one unit of truncation per inverse
/// entry, amplified by the coordinates it multiplies, so only this subclass
/// round-trips without error.
#[verifier::rlimit(100)]
pub proof fn lemma_translate_round_trip(
    m: Matrix4f,
    inv: Matrix4f,
    tx: int,
    ty: int,
    tz: int,
    px: int,
    py: int,
    pz: int,
)
    requires
        forall|rr: int, cc: int|
            0 <= rr < 4 && 0 <= cc < 4 ==> #[trigger] m.at(rr, cc) == translate_at(
                tx,
                ty,
                tz,
                rr,
                cc,
            ),
        forall|rr: int, cc: int|
            0 <= rr < 3 && 0 <= cc < 4 ==> #[trigger] inv.at(rr, cc) == fx_div(
                cof4_spec(m, cc, rr),
                det4_spec(m),
            ),
        iabs(tx) <= 2_000_000_000_000_000,
        iabs(ty) <= 2_000_000_000_000_000,
        iabs(tz) <= 2_000_000_000_000_000,
        iabs(px) <= 2_000_000_000_000_000,
        iabs(py) <= 2_000_000_000_000_000,
        iabs(pz) <= 2_000_000_000_000_000,
    ensures
        det4_spec(m) != 0,
        ({
            let qx = apply_at(m, px, py, pz, SCALE as int, 0);
            let qy = apply_at(m, px, py, pz, SCALE as int, 1);
            let qz = apply_at(m, px, py, pz, SCALE as int, 2);
            &&& apply_at(inv, qx, qy, qz, SCALE as int, 0) == px
            &&& apply_at(inv, qx, qy, qz, SCALE as int, 1) == py
            &&& apply_at(inv, qx, qy, qz, SCALE as int, 2) == pz
        }),
{
    let s_ = SCALE as int;
    lemma_translate_cofactors(m, tx, ty, tz);
    crate::scalar::lemma_fx_one_identity(tx);
    crate::scalar::lemma_fx_one_identity(ty);
    crate::scalar::lemma_fx_one_identity(tz);
    crate::scalar::lemma_fx_one_identity(-tx);
    crate::scalar::lemma_fx_one_identity(-ty);
    crate::scalar::lemma_fx_one_identity(-tz);
    crate::scalar::lemma_fx_one_identity(px);
    crate::scalar::lemma_fx_one_identity(py);
    crate::scalar::lemma_fx_one_identity(pz);
    crate::scalar::lemma_fx_one_identity(s_);
    assert forall|a: int| true implies #[trigger] fx_mul(a, 0) == 0 && fx_mul(0, a) == 0 by {
        crate::scalar::lemma_fx_mul_zero(a);
    }
    // The geometric rows of the computed inverse are exactly the reverse
    // translation.
    assert(inv.at(0, 0) == s_ && inv.at(0, 1) == 0 && inv.at(0, 2) == 0 && inv.at(0, 3) == -tx);
    assert(inv.at(1, 0) == 0 && inv.at(1, 1) == s_ && inv.at(1, 2) == 0 && inv.at(1, 3) == -ty);
    assert(inv.at(2, 0) == 0 && inv.at(2, 1) == 0 && inv.at(2, 2) == s_ && inv.at(2, 3) == -tz);
    // Forward application adds each offset exactly, and the inverse rows
    // subtract it back.
    let qx = apply_at(m, px, py, pz, s_, 0);
    let qy = apply_at(m, px, py, pz, s_, 1);
    let qz = apply_at(m, px, py, pz, s_, 2);
    assert(qx == px + tx && qy == py + ty && qz == pz + tz);
    assert(apply_at(inv, qx, qy, qz, s_, 0) == px);
    assert(apply_at(inv, qx, qy, qz, s_, 1) == py);
    assert(apply_at(inv, qx, qy, qz, s_, 2) == pz);
}

/// Law: a translation multiplied by its computed inverse is exactly the
/// identity — the provable instance of the approximate-inverse product. The
/// inverse hypothesis is verbatim what `Matrix4f::inverse` ensures, so the
/// law applies to the inverse as built. For a general transform the product
/// reaches the identity only to within the truncation its inverse entries
/// carry.
#[verifier::rlimit(100)]
pub proof fn lemma_translate_product_identity(
    m: Matrix4f,
    inv: Matrix4f,
    tx: int,
    ty: int,
    tz: int,
)
    requires
        forall|rr: int, cc: int|
            0 <= rr < 4 && 0 <= cc < 4 ==> #[trigger] m.at(rr, cc) == translate_at(
                tx,
                ty,
                tz,
                rr,
                cc,
            ),
        forall|rr: int, cc: int|
            0 <= rr < 4 && 0 <= cc < 4 ==> #[trigger] inv.at(rr, cc) == fx_div(
                cof4_spec(m, cc, rr),
                det4_spec(m),
            ),
        iabs(tx) <= 2_000_000_000_000_000,
        iabs(ty) <= 2_000_000_000_000_000,
        iabs(tz) <= 2_000_000_000_000_000,
    ensures
        forall|rr: int, cc: int|
            0 <= rr < 4 && 0 <= cc < 4 ==> #[trigger] mul4_at(m, inv, rr, cc) == (
            if rr == cc {
                SCALE as int
            } else {
                0
            }),
{
    let s_ = SCALE as int;
    lemma_translate_cofactors(m, tx, ty, tz);
    crate::scalar::lemma_fx_one_identity(tx);
    crate::scalar::lemma_fx_one_identity(ty);
    crate::scalar::lemma_fx_one_identity(tz);
    crate::scalar::lemma_fx_one_identity(-tx);
    crate::scalar::lemma_fx_one_identity(-ty);
    crate::scalar::lemma_fx_one_identity(-tz);
    crate::scalar::lemma_fx_one_identity(s_);
    assert forall|a: int| true implies #[trigger] fx_mul(a, 0) == 0 && fx_mul(0, a) == 0 by {
        crate::scalar::lemma_fx_mul_zero(a);
    }
    assert(inv.at(0, 0) == s_ && inv.at(0, 1) == 0 && inv.at(0, 2) == 0 && inv.at(0, 3) == -tx);
    assert(inv.at(1, 0) == 0 && inv.at(1, 1) == s_ && inv.at(1, 2) == 0 && inv.at(1, 3) == -ty);
    assert(inv.at(2, 0) == 0 && inv.at(2, 1) == 0 && inv.at(2, 2) == s_ && inv.at(2, 3) == -tz);
    assert(inv.at(3, 0) == 0 && inv.at(3, 1) == 0 && inv.at(3, 2) == 0 && inv.at(3, 3) == s_);
    assert forall|rr: int, cc: int|
        0 <= rr < 4 && 0 <= cc < 4 implies #[trigger] mul4_at(m, inv, rr, cc) == (
    if rr == cc {
        s_
    } else {
        0
    }) by {
        assert(mul4_at(m, inv, 0, 0) == s_);
        assert(mul4_at(m, inv, 0, 1) == 0);
        assert(mul4_at(m, inv, 0, 2) == 0);
        assert(mul4_at(m, inv, 0, 3) == 0);
        assert(mul4_at(m, inv, 1, 0) == 0);
        assert(mul4_at(m, inv, 1, 1) == s_);
        assert(mul4_at(m, inv, 1, 2) == 0);
        assert(mul4_at(m, inv, 1, 3) == 0);
        assert(mul4_at(m, inv, 2, 0) == 0);
        assert(mul4_at(m, inv, 2, 1) == 0);
        assert(mul4_at(m, inv, 2, 2) == s_);
        assert(mul4_at(m, inv, 2, 3) == 0);
        assert(mul4_at(m, inv, 3, 0) == 0);
        assert(mul4_at(m, inv, 3, 1) == 0);
        assert(mul4_at(m, inv, 3, 2) == 0);
        assert(mul4_at(m, inv, 3, 3) == s_);
    }
}

impl Matrix4f {
    /// The translation along a vector.
    pub fn translate(vec: Vector) -> (r: Matrix4f)
        ensures
            forall|rr: int, cc: int|
                0 <= rr < 4 && 0 <= cc < 4 ==> #[trigger] r.at(rr, cc) == translate_at(
                    vec.x(),
                    vec.y(),
                    vec.z(),
                    rr,
                    cc,
                ),
    {
        Matrix4f::translate_raw(vec.0.0, vec.0.1, vec.0.2)
    }

    /// The translation by the given offsets.
    pub fn translate_raw(x: Scalar, y: Scalar, z: Scalar) -> (r: Matrix4f)
        ensures
            forall|rr: int, cc: int|
                0 <= rr < 4 && 0 <= cc < 4 ==> #[trigger] r.at(rr, cc) == translate_at(
                    x@,
                    y@,
                    z@,
                    rr,
                    cc,
                ),
    {
        let zero = Scalar::zero();
        let one = Scalar::one();
        Matrix4f::new_with_data(
            ThreePart(one, zero, zero, x),
            ThreePart(zero, one, zero, y),
            ThreePart(zero, zero, one, z),
            ThreePart(zero, zero, zero, one),
        )
    }

    /// The non-uniform scale whose factors are the components of a point.
    pub fn scale(scalar: Point) -> (r: Matrix4f)
        ensures
            forall|rr: int, cc: int|
                0 <= rr < 4 && 0 <= cc < 4 ==> #[trigger] r.at(rr, cc) == scale_at(
                    scalar.x(),
                    scalar.y(),
                    scalar.z(),
                    rr,
                    cc,
                ),
    {
        Matrix4f::scale_raw(scalar.0.0, scalar.0.1, scalar.0.2)
    }

    /// The non-uniform scale by the given factors.
    pub fn scale_raw(x: Scalar, y: Scalar, z: Scalar) -> (r: Matrix4f)
        ensures
            forall|rr: int, cc: int|
                0 <= rr < 4 && 0 <= cc < 4 ==> #[trigger] r.at(rr, cc) == scale_at(
                    x@,
                    y@,
                    z@,
                    rr,
                    cc,
                ),
    {
        let zero = Scalar::zero();
        let one = Scalar::one();
        Matrix4f::new_with_data(
            ThreePart(x, zero, zero, zero),
            ThreePart(zero, y, zero, zero),
            ThreePart(zero, zero, z, zero),
            ThreePart(zero, zero, zero, one),
        )
    }

    /// The uniform scale by one factor.
    pub fn scale_uniform(scalar: Scalar) -> (r: Matrix4f)
        ensures
            forall|rr: int, cc: int|
                0 <= rr < 4 && 0 <= cc < 4 ==> #[trigger] r.at(rr, cc) == scale_at(
                    scalar@,
                    scalar@,
                    scalar@,
                    rr,
                    cc,
                ),
    {
        Matrix4f::scale_raw(scalar, scalar, scalar)
    }

    /// The matrix whose application is the cross product with a vector.
    pub fn cross_product(vec: Vector) -> (r: Matrix4f)
        ensures
            forall|rr: int, cc: int|
                0 <= rr < 4 && 0 <= cc < 4 ==> #[trigger] r.at(rr, cc) == cross_mat_at(
                    vec.x(),
                    vec.y(),
                    vec.z(),
                    rr,
                    cc,
                ),
    {
        Matrix4f::cross_product_raw(vec.0.0, vec.0.1, vec.0.2)
    }

    /// The cross-product matrix for the given axis components.
    pub fn cross_product_raw(x: Scalar, y: Scalar, z: Scalar) -> (r: Matrix4f)
        ensures
            forall|rr: int, cc: int|
                0 <= rr < 4 && 0 <= cc < 4 ==> #[trigger] r.at(rr, cc) == cross_mat_at(
                    x@,
                    y@,
                    z@,
                    rr,
                    cc,
                ),
    {
        let zero = Scalar::zero();
        let one = Scalar::one();
        Matrix4f::new_with_data(
            ThreePart(zero, z.neg(), y, zero),
            ThreePart(z, zero, x.neg(), zero),
            ThreePart(y.neg(), x, zero, zero),
            ThreePart(zero, zero, zero, one),
        )
    }

    /// The rotation about an arbitrary unit axis.
    pub fn rotate_around(axis: Vector, angle: Rotation) -> (r: Matrix4f)
        requires
            fuzzy_unit_axis(axis.x(), axis.y(), axis.z()),
        ensures
            forall|rr: int, cc: int|
                0 <= rr < 4 && 0 <= cc < 4 ==> #[trigger] r.at(rr, cc) == rotate_around_at(
                    axis.x(),
                    axis.y(),
                    axis.z(),
                    angle.sin@,
                    angle.cos@,
                    rr,
                    cc,
                ),
    {
        Matrix4f::rotate_around_raw(axis.0.0, axis.0.1, axis.0.2, angle)
    }

    /// The rotation about the unit axis with the given components.
    pub fn rotate_around_raw(x: Scalar, y: Scalar, z: Scalar, angle: Rotation) -> (r: Matrix4f)
        requires
            fuzzy_unit_axis(x@, y@, z@),
        ensures
            forall|rr: int, cc: int|
                0 <= rr < 4 && 0 <= cc < 4 ==> #[trigger] r.at(rr, cc) == rotate_around_at(
                    x@,
                    y@,
                    z@,
                    angle.sin@,
                    angle.cos@,
                    rr,
                    cc,
                ),
    {
        let c = angle.cos;
        let s = angle.sin;
        let t = Scalar::one().sub(c);
        let zero = Scalar::zero();
        let i = Matrix4f::identity();
        let cu = Matrix4f::cross_product_raw(x, y, z);
        let o = Matrix4f::new_with_data(
            ThreePart(x.mul(x), x.mul(y), x.mul(z), zero),
            ThreePart(y.mul(x), y.mul(y), y.mul(z), zero),
            ThreePart(z.mul(x), z.mul(y), z.mul(z), zero),
            ThreePart(zero, zero, zero, zero),
        );
        i.mul_scalar(c).add(cu.mul_scalar(s)).add(o.mul_scalar(t))
    }

    /// The rotation about the first axis.
    pub fn rotate_around_x(angle: Rotation) -> (r: Matrix4f)
        ensures
            forall|rr: int, cc: int|
                0 <= rr < 4 && 0 <= cc < 4 ==> #[trigger] r.at(rr, cc) == rotate_x_at(
                    angle.sin@,
                    angle.cos@,
                    rr,
                    cc,
                ),
    {
        Matrix4f::rotate_around_x_raw(angle.sin, angle.cos)
    }

    /// The rotation about the first axis, from a sine and cosine.
    pub fn rotate_around_x_raw(s: Scalar, c: Scalar) -> (r: Matrix4f)
        ensures
            forall|rr: int, cc: int|
                0 <= rr < 4 && 0 <= cc < 4 ==> #[trigger] r.at(rr, cc) == rotate_x_at(
                    s@,
                    c@,
                    rr,
                    cc,
                ),
    {
        let zero = Scalar::zero();
        let one = Scalar::one();
        Matrix4f::new_with_data(
            ThreePart(one, zero, zero, zero),
            ThreePart(zero, c, s.neg(), zero),
            ThreePart(zero, s, c, zero),
            ThreePart(zero, zero, zero, one),
        )
    }

    /// The rotation about the second axis.
    pub fn rotate_around_y(angle: Rotation) -> (r: Matrix4f)
        ensures
            forall|rr: int, cc: int|
                0 <= rr < 4 && 0 <= cc < 4 ==> #[trigger] r.at(rr, cc) == rotate_y_at(
                    angle.sin@,
                    angle.cos@,
                    rr,
                    cc,
                ),
    {
        Matrix4f::rotate_around_y_raw(angle.sin, angle.cos)
    }

    /// The rotation about the second axis, from a sine and cosine.
    pub fn rotate_around_y_raw(s: Scalar, c: Scalar) -> (r: Matrix4f)
        ensures
            forall|rr: int, cc: int|
                0 <= rr < 4 && 0 <= cc < 4 ==> #[trigger] r.at(rr, cc) == rotate_y_at(
                    s@,
                    c@,
                    rr,
                    cc,
                ),
    {
        let zero = Scalar::zero();
        let one = Scalar::one();
        Matrix4f::new_with_data(
            ThreePart(c, zero, s, zero),
            ThreePart(zero, one, zero, zero),
            ThreePart(s.neg(), zero, c, zero),
            ThreePart(zero, zero, zero, one),
        )
    }

    /// The rotation about the third axis.
    pub fn rotate_around_z(angle: Rotation) -> (r: Matrix4f)
        ensures
            forall|rr: int, cc: int|
                0 <= rr < 4 && 0 <= cc < 4 ==> #[trigger] r.at(rr, cc) == rotate_z_at(
                    angle.sin@,
                    angle.cos@,
                    rr,
                    cc,
                ),
    {
        Matrix4f::rotate_around_z_raw(angle.sin, angle.cos)
    }

    /// The rotation about the third axis, from a sine and cosine.
    pub fn rotate_around_z_raw(s: Scalar, c: Scalar) -> (r: Matrix4f)
        ensures
            forall|rr: int, cc: int|
                0 <= rr < 4 && 0 <= cc < 4 ==> #[trigger] r.at(rr, cc) == rotate_z_at(
                    s@,
                    c@,
                    rr,
                    cc,
                ),
    {
        let zero = Scalar::zero();
        let one = Scalar::one();
        Matrix4f::new_with_data(
            ThreePart(c, s.neg(), zero, zero),
            ThreePart(s, c, zero, zero),
            ThreePart(zero, zero, one, zero),
            ThreePart(zero, zero, zero, one),
        )
    }

    /// The shear whose six off-diagonal factors are the pairwise products of
    /// the given components.
    pub fn shear(x: Scalar, y: Scalar, z: Scalar) -> (r: Matrix4f)
        ensures
            forall|rr: int, cc: int|
                0 <= rr < 4 && 0 <= cc < 4 ==> #[trigger] r.at(rr, cc) == shear_at(
                    fx_mul(x@, y@),
                    fx_mul(x@, z@),
                    fx_mul(y@, x@),
                    fx_mul(y@, z@),
                    fx_mul(z@, x@),
                    fx_mul(z@, y@),
                    rr,
                    cc,
                ),
    {
        Matrix4f::shear_raw(x.mul(y), x.mul(z), y.mul(x), y.mul(z), z.mul(x), z.mul(y))
    }

    /// The shear with the given off-diagonal factors.
    pub fn shear_raw(
        xy: Scalar,
        xz: Scalar,
        yx: Scalar,
        yz: Scalar,
        zx: Scalar,
        zy: Scalar,
    ) -> (r: Matrix4f)
        ensures
            forall|rr: int, cc: int|
                0 <= rr < 4 && 0 <= cc < 4 ==> #[trigger] r.at(rr, cc) == shear_at(
                    xy@,
                    xz@,
                    yx@,
                    yz@,
                    zx@,
                    zy@,
                    rr,
                    cc,
                ),
    {
        let zero = Scalar::zero();
        let one = Scalar::one();
        Matrix4f::new_with_data(
            ThreePart(one, xy, xz, zero),
            ThreePart(yx, one, yz, zero),
            ThreePart(zx, zy, one, zero),
            ThreePart(zero, zero, zero, one),
        )
    }
}

} // verus!
