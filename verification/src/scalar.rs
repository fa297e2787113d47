//! Fixed-point scalar arithmetic.
//!
//! Every geometric quantity in this crate is a `Scalar`: a signed number held
//! as an integer count of millionths (`SCALE` units per whole). Addition and
//! subtraction are exact; multiplication and division truncate toward zero at
//! the last step and saturate at `MAX_UNITS`, so every operation is total and
//! panic-free. Division by zero is defined to yield zero, which keeps the
//! degenerate color-mixing and lighting cases well-defined instead of
//! propagating an error value.
//!
//! Geometric comparisons are fuzzy: two scalars are considered equal when they
//! differ by less than `EPSILON_UNITS` units, which absorbs the drift that
//! truncation introduces under repeated transform composition.
use vstd::prelude::*;

verus! {

/// Number of units per whole; one unit is a millionth.
pub const SCALE: i64 = 1_000_000;

/// Largest magnitude a scalar may hold, in units.
pub const MAX_UNITS: i64 = 4_000_000_000_000_000;

/// Tolerance of the fuzzy comparison, in units.
pub const EPSILON_UNITS: i64 = 10;

/// Absolute value of a mathematical integer.
pub open spec fn iabs(a: int) -> int {
    if a < 0 {
        -a
    } else {
        a
    }
}

/// Saturation of a mathematical integer into the representable range.
pub open spec fn sat(x: int) -> int {
    if x > MAX_UNITS as int {
        MAX_UNITS as int
    } else if x < -(MAX_UNITS as int) {
        -(MAX_UNITS as int)
    } else {
        x
    }
}

/// Division truncated toward zero, as the hardware performs it;
/// unspecified when `b == 0` (never applied there).
pub open spec fn tdiv(a: int, b: int) -> int {
    if (a < 0) == (b < 0) {
        iabs(a) / iabs(b)
    } else {
        -(iabs(a) / iabs(b))
    }
}

/// The value of a scalar sum.
pub open spec fn fx_add(a: int, b: int) -> int {
    sat(a + b)
}

/// The value of a scalar difference.
pub open spec fn fx_sub(a: int, b: int) -> int {
    sat(a - b)
}

/// The value of a scalar negation.
pub open spec fn fx_neg(a: int) -> int {
    sat(-a)
}

/// The value of a scalar product: scaled down, truncated, saturated.
pub open spec fn fx_mul(a: int, b: int) -> int {
    sat(tdiv(a * b, SCALE as int))
}

/// The value of a scalar quotient; division by zero yields zero.
pub open spec fn fx_div(a: int, b: int) -> int {
    if b == 0 {
        0
    } else {
        sat(tdiv(a * (SCALE as int), b))
    }
}

/// The smaller of two scalar values.
pub open spec fn fx_min(a: int, b: int) -> int {
    if a < b {
        a
    } else {
        b
    }
}

/// The larger of two scalar values.
pub open spec fn fx_max(a: int, b: int) -> int {
    if a > b {
        a
    } else {
        b
    }
}

/// `r` is the integer square root of `n`.
pub open spec fn is_sqrt(n: int, r: int) -> bool {
    &&& 0 <= r
    &&& r * r <= n
    &&& n < (r + 1) * (r + 1)
}

/// The integer square root of a nonnegative integer.
pub open spec fn sqrt_floor(n: int) -> int {
    choose|r: int| #[trigger] is_sqrt(n, r)
}

/// The value of a scalar square root: the square root of the unit count
/// rescaled so that the result is again in units. Nonpositive inputs yield
/// zero.
pub open spec fn fx_sqrt(a: int) -> int {
    if a <= 0 {
        0
    } else {
        sqrt_floor(a * (SCALE as int))
    }
}

/// The value of a scalar raised to a whole-number power, accumulated by
/// repeated multiplication from the left.
pub open spec fn fx_powi(a: int, n: nat) -> int
    decreases n,
{
    if n == 0 {
        SCALE as int
    } else {
        fx_mul(fx_powi(a, (n - 1) as nat), a)
    }
}

/// Two scalar values are fuzzily equal when they differ by less than the
/// tolerance.
pub open spec fn fx_fuzzy_eq(a: int, b: int) -> bool {
    iabs(a - b) < EPSILON_UNITS as int
}

/// The fractional part of a scalar value: what truncation toward a whole
/// number discards, carrying the sign of the input.
pub open spec fn fx_fract(a: int) -> int {
    a - tdiv(a, SCALE as int) * (SCALE as int)
}

proof fn lemma_sqrt_exists(n: int)
    requires
        0 <= n,
    ensures
        exists|r: int| #[trigger] is_sqrt(n, r),
    decreases n,
{
    if n == 0 {
        assert(is_sqrt(0, 0));
    } else {
        lemma_sqrt_exists(n - 1);
        let r = choose|r: int| #[trigger] is_sqrt(n - 1, r);
        if n < (r + 1) * (r + 1) {
            assert(is_sqrt(n, r));
        } else {
            assert(n == (r + 1) * (r + 1));
            assert((r + 1) * (r + 1) < (r + 2) * (r + 2)) by (nonlinear_arith)
                requires 0 <= r;
            assert(is_sqrt(n, r + 1));
        }
    }
}

proof fn lemma_sqrt_unique(n: int, r1: int, r2: int)
    requires
        is_sqrt(n, r1),
        is_sqrt(n, r2),
    ensures
        r1 == r2,
{
    assert(r1 == r2) by (nonlinear_arith)
        requires
            0 <= r1,
            0 <= r2,
            r1 * r1 <= n,
            n < (r1 + 1) * (r1 + 1),
            r2 * r2 <= n,
            n < (r2 + 1) * (r2 + 1);
}

/// A witness of the square-root bounds pins down `sqrt_floor`.
proof fn lemma_sqrt_is(n: int, r: int)
    requires
        is_sqrt(n, r),
    ensures
        sqrt_floor(n) == r,
{
    assert(is_sqrt(n, sqrt_floor(n)));
    lemma_sqrt_unique(n, sqrt_floor(n), r);
}

proof fn lemma_i64_product_fits(a: int, b: int)
    by (nonlinear_arith)
    requires
        -0x8000_0000_0000_0000 <= a <= 0x8000_0000_0000_0000,
        -0x8000_0000_0000_0000 <= b <= 0x8000_0000_0000_0000,
    ensures
        -0x4000_0000_0000_0000_0000_0000_0000_0000 <= a * b
            <= 0x4000_0000_0000_0000_0000_0000_0000_0000,
{
}

proof fn lemma_div_magnitude(x: int, d: int)
    requires
        0 <= x,
        1 <= d,
    ensures
        0 <= x / d <= x,
{
    vstd::arithmetic::div_mod::lemma_div_pos_is_pos(x, d);
    vstd::arithmetic::div_mod::lemma_div_nonincreasing(x, d);
}

/// Truncated quotient and its magnitude bound.
proof fn lemma_tdiv_bounds(a: int, b: int)
    requires
        b != 0,
    ensures
        iabs(tdiv(a, b)) <= iabs(a),
{
    lemma_div_magnitude(iabs(a), iabs(b));
}

/// Multiplying by a positive factor and truncated-dividing by it returns
/// the original value.
pub proof fn lemma_tdiv_cancel(x: int, d: int)
    requires
        d > 0,
    ensures
        tdiv(x * d, d) == x,
{
    vstd::arithmetic::div_mod::lemma_div_by_multiple(iabs(x), d);
    assert(iabs(x) * d == iabs(x * d)) by (nonlinear_arith)
        requires d > 0;
    assert((x * d < 0) == (x < 0)) by (nonlinear_arith)
        requires d > 0;
}

/// The integer square root of a nonnegative number satisfies its bounds.
pub proof fn lemma_sqrt_floor_bounds(n: int)
    requires
        0 <= n,
    ensures
        is_sqrt(n, sqrt_floor(n)),
{
    lemma_sqrt_exists(n);
}

/// Multiplying a scalar value by zero yields zero.
pub proof fn lemma_fx_mul_zero(a: int)
    ensures
        fx_mul(a, 0) == 0,
        fx_mul(0, a) == 0,
{
    vstd::arithmetic::div_mod::lemma_div_of0(SCALE as int);
}

/// Multiplying a representable value by one whole, in either order, and
/// dividing it by one whole all return it unchanged.
pub proof fn lemma_fx_one_identity(a: int)
    requires
        -(MAX_UNITS as int) <= a <= MAX_UNITS as int,
    ensures
        fx_mul(a, SCALE as int) == a,
        fx_mul(SCALE as int, a) == a,
        fx_div(a, SCALE as int) == a,
{
    lemma_tdiv_cancel(a, SCALE as int);
    assert(a * (SCALE as int) == (SCALE as int) * a);
}

/// The scalar square root is never negative.
pub proof fn lemma_fx_sqrt_nonneg(a: int)
    ensures
        fx_sqrt(a) >= 0,
{
    if a > 0 {
        lemma_sqrt_exists(a * (SCALE as int));
        let r = choose|r: int| #[trigger] is_sqrt(a * (SCALE as int), r);
        lemma_sqrt_is(a * (SCALE as int), r);
    }
}

/// Truncated division by a positive divisor preserves order of the
/// dividends.
pub proof fn lemma_tdiv_monotone(a: int, b: int, d: int)
    requires
        a <= b,
        d > 0,
    ensures
        tdiv(a, d) <= tdiv(b, d),
{
    if 0 <= a {
        vstd::arithmetic::div_mod::lemma_div_is_ordered(a, b, d);
    } else if b < 0 {
        vstd::arithmetic::div_mod::lemma_div_is_ordered(-b, -a, d);
    } else {
        lemma_div_magnitude(-a, d);
        lemma_div_magnitude(b, d);
    }
}

/// The length of a component triple, taken at full precision: the integer
/// square root of the exact sum of squared unit counts, saturated into
/// range.
pub(crate) fn mag_of_units(x: i64, y: i64, z: i64) -> (r: Scalar)
    ensures
        r@ == sat(sqrt_floor(x as int * x as int + y as int * y as int + z as int * z as int)),
{
    let xm: u128 = if x < 0 {
        (-(x as i128)) as u128
    } else {
        x as u128
    };
    let ym: u128 = if y < 0 {
        (-(y as i128)) as u128
    } else {
        y as u128
    };
    let zm: u128 = if z < 0 {
        (-(z as i128)) as u128
    } else {
        z as u128
    };
    proof {
        lemma_square_of_magnitude(x as int, xm as int);
        lemma_square_of_magnitude(y as int, ym as int);
        lemma_square_of_magnitude(z as int, zm as int);
    }
    let q: u128 = xm * xm + ym * ym + zm * zm;
    let root: u128 = isqrt_u128(q);
    proof {
        lemma_sqrt_is(q as int, root as int);
    }
    if root > MAX_UNITS as u128 {
        Scalar { units: MAX_UNITS }
    } else {
        Scalar { units: root as i64 }
    }
}

/// The square of a number equals the square of its magnitude, and the
/// square of an `i64` magnitude stays within the wide word.
proof fn lemma_square_of_magnitude(v: int, m: int)
    by (nonlinear_arith)
    requires
        m == iabs(v),
        -0x8000_0000_0000_0000 <= v <= 0x8000_0000_0000_0000,
    ensures
        m * m == v * v,
        0 <= m * m <= 0x4000_0000_0000_0000_0000_0000_0000_0000,
{
}

/// A wide intermediate brought back into a scalar, saturated into range.
pub(crate) fn from_wide(u: i128) -> (r: Scalar)
    ensures
        r@ == sat(u as int),
{
    Scalar { units: clamp_units(u) }
}

/// A signed number held as a count of millionths.
#[derive(Clone, Copy, Debug, PartialEq, Eq, Structural)]
pub struct Scalar {
    units: i64,
}

impl View for Scalar {
    type V = int;

    closed spec fn view(&self) -> int {
        self.units as int
    }
}

/// Saturates an intermediate result into the representable range.
pub(crate) fn clamp_units(s: i128) -> (r: i64)
    ensures
        r as int == sat(s as int),
{
    if s > MAX_UNITS as i128 {
        MAX_UNITS
    } else if s < -MAX_UNITS as i128 {
        -MAX_UNITS
    } else {
        s as i64
    }
}

/// Quotient truncated toward zero; the dividend must sit above the very
/// bottom of the wide word so the quotient is always representable.
pub(crate) fn trunc_div(p: i128, d: i128) -> (r: i128)
    requires
        d != 0,
        -0x7fff_ffff_ffff_ffff_ffff_ffff_ffff_ffff <= p as int,
    ensures
        r as int == tdiv(p as int, d as int),
        iabs(r as int) <= iabs(p as int),
{
    proof {
        lemma_tdiv_bounds(p as int, d as int);
    }
    let q = p.checked_div(d);
    proof {
        let x = p as int;
        let dd = d as int;
        if x == 0 {
            vstd::arithmetic::div_mod::lemma_div_of0(iabs(dd));
        }
    }
    q.unwrap()
}

impl Scalar {
    /// The scalar holding the given count of units, saturated into range.
    pub fn from_units(u: i64) -> (r: Scalar)
        ensures
            r@ == sat(u as int),
    {
        Scalar { units: clamp_units(u as i128) }
    }

    /// The count of units this scalar holds.
    pub fn units(&self) -> (r: i64)
        ensures
            r as int == self@,
    {
        self.units
    }

    /// The scalar holding the given whole number.
    pub fn from_whole(w: i64) -> (r: Scalar)
        ensures
            r@ == sat(w as int * SCALE as int),
    {
        proof {
            lemma_i64_product_fits(w as int, SCALE as int);
        }
        Scalar { units: clamp_units(w as i128 * SCALE as i128) }
    }

    /// Zero.
    pub fn zero() -> (r: Scalar)
        ensures
            r@ == 0,
    {
        Scalar { units: 0 }
    }

    /// One whole.
    pub fn one() -> (r: Scalar)
        ensures
            r@ == SCALE as int,
    {
        Scalar { units: SCALE }
    }

    /// Sum of two scalars.
    pub fn add(self, rhs: Scalar) -> (r: Scalar)
        ensures
            r@ == fx_add(self@, rhs@),
    {
        Scalar { units: clamp_units(self.units as i128 + rhs.units as i128) }
    }

    /// Difference of two scalars.
    pub fn sub(self, rhs: Scalar) -> (r: Scalar)
        ensures
            r@ == fx_sub(self@, rhs@),
    {
        Scalar { units: clamp_units(self.units as i128 - rhs.units as i128) }
    }

    /// Negation of a scalar.
    pub fn neg(self) -> (r: Scalar)
        ensures
            r@ == fx_neg(self@),
    {
        Scalar { units: clamp_units(-(self.units as i128)) }
    }

    /// Product of two scalars.
    pub fn mul(self, rhs: Scalar) -> (r: Scalar)
        ensures
            r@ == fx_mul(self@, rhs@),
    {
        proof {
            lemma_i64_product_fits(self.units as int, rhs.units as int);
        }
        let p: i128 = self.units as i128 * rhs.units as i128;
        Scalar { units: clamp_units(trunc_div(p, SCALE as i128)) }
    }

    /// Quotient of two scalars; division by zero yields zero.
    pub fn div(self, rhs: Scalar) -> (r: Scalar)
        ensures
            r@ == fx_div(self@, rhs@),
    {
        if rhs.units == 0 {
            Scalar { units: 0 }
        } else {
            proof {
                lemma_i64_product_fits(self.units as int, SCALE as int);
            }
            let p: i128 = self.units as i128 * SCALE as i128;
            Scalar { units: clamp_units(trunc_div(p, rhs.units as i128)) }
        }
    }

    /// Absolute value of a scalar.
    pub fn abs(self) -> (r: Scalar)
        ensures
            r@ == sat(iabs(self@)),
    {
        if self.units < 0 {
            self.neg()
        } else {
            Scalar::from_units(self.units)
        }
    }

    /// The smaller of two scalars.
    pub fn min(self, rhs: Scalar) -> (r: Scalar)
        ensures
            r@ == fx_min(self@, rhs@),
    {
        if self.units < rhs.units {
            self
        } else {
            rhs
        }
    }

    /// The larger of two scalars.
    pub fn max(self, rhs: Scalar) -> (r: Scalar)
        ensures
            r@ == fx_max(self@, rhs@),
    {
        if self.units > rhs.units {
            self
        } else {
            rhs
        }
    }

    /// Whether this scalar is strictly below another.
    pub fn lt(self, rhs: Scalar) -> (r: bool)
        ensures
            r == (self@ < rhs@),
    {
        self.units < rhs.units
    }

    /// Whether this scalar is at most another.
    pub fn le(self, rhs: Scalar) -> (r: bool)
        ensures
            r == (self@ <= rhs@),
    {
        self.units <= rhs.units
    }

    /// Whether this scalar is strictly negative.
    pub fn is_neg(self) -> (r: bool)
        ensures
            r == (self@ < 0),
    {
        self.units < 0
    }

    /// Square root of a scalar; nonpositive inputs yield zero.
    pub fn sqrt(self) -> (r: Scalar)
        ensures
            r@ == fx_sqrt(self@),
    {
        if self.units <= 0 {
            Scalar { units: 0 }
        } else {
            proof {
                lemma_i64_product_fits(self.units as int, SCALE as int);
            }
            let n: u128 = self.units as u128 * SCALE as u128;
            let root: u128 = isqrt_u128(n);
            proof {
                lemma_sqrt_is(n as int, root as int);
                assert(root as int * root as int <= n as int);
                assert(root as int <= MAX_UNITS as int) by (nonlinear_arith)
                    requires
                        0 <= root as int,
                        root as int * root as int <= n as int,
                        n as int <= 0x8000_0000_0000_0000 * 1_000_000,
                        MAX_UNITS as int == 4_000_000_000_000_000;
            }
            Scalar { units: root as i64 }
        }
    }

    /// This scalar raised to a whole-number power.
    pub fn powi(self, n: u32) -> (r: Scalar)
        ensures
            r@ == fx_powi(self@, n as nat),
    {
        let mut acc = Scalar::one();
        let mut i: u32 = 0;
        while i < n
            invariant
                i <= n,
                acc@ == fx_powi(self@, i as nat),
            decreases n - i,
        {
            acc = acc.mul(self);
            i = i + 1;
        }
        acc
    }

    /// The whole part of this scalar, truncated toward zero.
    pub fn to_whole(self) -> (r: i64)
        ensures
            r as int == tdiv(self@, SCALE as int),
    {
        trunc_div(self.units as i128, SCALE as i128) as i64
    }

    /// Whether two scalars hold exactly the same value.
    pub fn eq_exact(self, rhs: Scalar) -> (r: bool)
        ensures
            r == (self@ == rhs@),
    {
        self.units == rhs.units
    }

    /// The fractional part, with the sign of the input, as the remainder of
    /// truncation toward zero.
    pub fn fract(self) -> (r: Scalar)
        ensures
            r@ == fx_fract(self@),
    {
        let m: u128 = if self.units < 0 {
            (-(self.units as i128)) as u128
        } else {
            self.units as u128
        };
        let rem: u128 = m % (SCALE as u128);
        proof {
            let u = self@;
            vstd::arithmetic::div_mod::lemma_fundamental_div_mod(m as int, SCALE as int);
            if u < 0 {
                assert(iabs(u) == m as int);
            }
        }
        if self.units < 0 {
            Scalar { units: -((rem as i64)) }
        } else {
            Scalar { units: rem as i64 }
        }
    }

    /// Whether two scalars differ by less than the tolerance.
    pub fn fuzzy_eq_scalar(self, rhs: Scalar) -> (r: bool)
        ensures
            r == fx_fuzzy_eq(self@, rhs@),
    {
        self.sub(rhs).abs().units < EPSILON_UNITS
    }
}

/// Integer square root by bisection.
fn isqrt_u128(n: u128) -> (r: u128)
    ensures
        is_sqrt(n as int, r as int),
{
    let mut lo: u128 = 0;
    let mut hi: u128 = 0x1_0000_0000_0000_0000u128;
    proof {
        assert(hi as int * hi as int > n as int) by (nonlinear_arith)
            requires
                hi as int == 0x1_0000_0000_0000_0000,
                (n as int) < 0x1_0000_0000_0000_0000_0000_0000_0000_0000;
    }
    while lo + 1 < hi
        invariant
            lo < hi,
            hi <= 0x1_0000_0000_0000_0000u128,
            lo as int * lo as int <= n as int,
            (n as int) < hi as int * hi as int,
        decreases hi - lo,
    {
        let mid: u128 = lo + (hi - lo) / 2;
        proof {
            assert((mid as int) * (mid as int) < 0x1_0000_0000_0000_0000_0000_0000_0000_0000)
                by (nonlinear_arith)
                requires
                    0 <= mid as int && (mid as int) < 0x1_0000_0000_0000_0000;
        }
        if mid * mid <= n {
            lo = mid;
        } else {
            hi = mid;
        }
    }
    lo
}

} // verus!
