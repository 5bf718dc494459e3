use vstd::prelude::*;
use crate::error::DomainError;

verus! {

/// A 2×2 matrix over the mathematical integers, rows `(a, b)` and `(c, d)`.
pub struct Mat2 {
    pub a: int,
    pub b: int,
    pub c: int,
    pub d: int,
}

impl Mat2 {
    /// The determinant `a·d − b·c`.
    pub open spec fn det(self) -> int {
        self.a * self.d - self.b * self.c
    }

    /// The adjugate `[[d, −b], [−c, a]]`; the inverse is the adjugate divided
    /// by the determinant.
    pub open spec fn adjugate(self) -> Mat2 {
        Mat2 { a: self.d, b: -self.b, c: -self.c, d: self.a }
    }

    /// The matrix product `self · rhs`.
    pub open spec fn times(self, rhs: Mat2) -> Mat2 {
        Mat2 {
            a: self.a * rhs.a + self.b * rhs.c,
            b: self.a * rhs.b + self.b * rhs.d,
            c: self.c * rhs.a + self.d * rhs.c,
            d: self.c * rhs.b + self.d * rhs.d,
        }
    }

    /// The scalar matrix `k · I`.
    pub open spec fn scalar(k: int) -> Mat2 {
        Mat2 { a: k, b: 0, c: 0, d: k }
    }

    /// The column vector `self · x`.
    pub open spec fn apply(self, x: (int, int)) -> (int, int) {
        (self.a * x.0 + self.b * x.1, self.c * x.0 + self.d * x.1)
    }

    /// The quadratic form `xᵗ · (self · x)`.
    pub open spec fn quadratic_form(self, x: (int, int)) -> int {
        dot(x, self.apply(x))
    }

    /// Every entry lies within `[-bound, bound]`.
    pub open spec fn within(self, bound: int) -> bool {
        &&& -bound <= self.a <= bound
        &&& -bound <= self.b <= bound
        &&& -bound <= self.c <= bound
        &&& -bound <= self.d <= bound
    }
}

/// The inner product `xᵗ · y` of two 2-vectors.
pub open spec fn dot(x: (int, int), y: (int, int)) -> int {
    x.0 * y.0 + x.1 * y.1
}

/// The largest magnitude of a matrix entry: 2³¹.
pub open spec fn entry_bound() -> int {
    0x8000_0000
}

/// The largest magnitude of a vector component that a quadratic form takes: 2³².
pub open spec fn component_bound() -> int {
    0x1_0000_0000
}

/// A product is bounded by the product of its factors' bounds.
pub proof fn lemma_product_within(x: int, y: int, bx: int, by: int)
    requires
        -bx <= x <= bx,
        -by <= y <= by,
    ensures
        -(bx * by) <= x * y <= bx * by,
{
    assert(-(bx * by) <= x * y <= bx * by) by (nonlinear_arith)
        requires
            -bx <= x <= bx,
            -by <= y <= by,
    ;
}

/// A matrix times its adjugate, in either order, is the determinant times
/// the identity: dividing the adjugate by a determinant that is not zero
/// gives the inverse.
pub proof fn lemma_adjugate_inverts(m: Mat2)
    ensures
        m.times(m.adjugate()) == Mat2::scalar(m.det()),
        m.adjugate().times(m) == Mat2::scalar(m.det()),
{
    assert(m.a * m.d + m.b * (-m.c) == m.a * m.d - m.b * m.c) by (nonlinear_arith);
    assert(m.a * (-m.b) + m.b * m.a == 0) by (nonlinear_arith);
    assert(m.c * m.d + m.d * (-m.c) == 0) by (nonlinear_arith);
    assert(m.c * (-m.b) + m.d * m.a == m.a * m.d - m.b * m.c) by (nonlinear_arith);
    assert(m.d * m.a + (-m.b) * m.c == m.a * m.d - m.b * m.c) by (nonlinear_arith);
    assert(m.d * m.b + (-m.b) * m.d == 0) by (nonlinear_arith);
    assert((-m.c) * m.a + m.a * m.c == 0) by (nonlinear_arith);
    assert((-m.c) * m.b + m.a * m.d == m.a * m.d - m.b * m.c) by (nonlinear_arith);
}

/// A 2×2 matrix with rows `(a, b)` and `(c, d)`.
#[derive(Clone, Copy, Debug, PartialEq, Eq, Structural)]
pub struct Matrix2 {
    pub a: i32,
    pub b: i32,
    pub c: i32,
    pub d: i32,
}

impl View for Matrix2 {
    type V = Mat2;

    open spec fn view(&self) -> Mat2 {
        Mat2 { a: self.a as int, b: self.b as int, c: self.c as int, d: self.d as int }
    }
}

/// The inverse of a 2×2 integer matrix, held exactly: the matrix
/// `[[a, b], [c, d]]` divided by `det`.
#[derive(Clone, Copy, Debug, PartialEq, Eq, Structural)]
pub struct Inverse2 {
    pub a: i64,
    pub b: i64,
    pub c: i64,
    pub d: i64,
    pub det: i64,
}

impl Inverse2 {
    /// The numerator matrix.
    pub open spec fn numerator(self) -> Mat2 {
        Mat2 { a: self.a as int, b: self.b as int, c: self.c as int, d: self.d as int }
    }

    /// The divisor is not zero and the numerator's entries are in range.
    pub open spec fn well_formed(self) -> bool {
        &&& self.det != 0
        &&& self.numerator().within(entry_bound())
    }

    /// The numerator of the quadratic form `xᵗ · (self · x)`; the form itself
    /// is this number divided by `det`.
    pub fn quadratic_form(&self, x: (i64, i64)) -> (q: i128)
        requires
            self.well_formed(),
            -component_bound() <= x.0 <= component_bound(),
            -component_bound() <= x.1 <= component_bound(),
        ensures
            q == self.numerator().quadratic_form((x.0 as int, x.1 as int)),
    {
        quadratic_form_wide((self.a, self.b), (self.c, self.d), x)
    }
}

/// `xᵗ · (M · x)` for the matrix `M` with the rows given.
fn quadratic_form_wide(r0: (i64, i64), r1: (i64, i64), x: (i64, i64)) -> (q: i128)
    requires
        (Mat2 { a: r0.0 as int, b: r0.1 as int, c: r1.0 as int, d: r1.1 as int }).within(
            entry_bound(),
        ),
        -component_bound() <= x.0 <= component_bound(),
        -component_bound() <= x.1 <= component_bound(),
    ensures
        q == (Mat2 {
            a: r0.0 as int,
            b: r0.1 as int,
            c: r1.0 as int,
            d: r1.1 as int,
        }).quadratic_form((x.0 as int, x.1 as int)),
{
    proof {
        lemma_product_within(r0.0 as int, x.0 as int, 0x8000_0000, 0x1_0000_0000);
        lemma_product_within(r0.1 as int, x.1 as int, 0x8000_0000, 0x1_0000_0000);
        lemma_product_within(r1.0 as int, x.0 as int, 0x8000_0000, 0x1_0000_0000);
        lemma_product_within(r1.1 as int, x.1 as int, 0x8000_0000, 0x1_0000_0000);
        assert(0x8000_0000 * 0x1_0000_0000 == 0x8000_0000_0000_0000) by (nonlinear_arith);
    }
    let y0: i128 = (r0.0 as i128) * (x.0 as i128) + (r0.1 as i128) * (x.1 as i128);
    let y1: i128 = (r1.0 as i128) * (x.0 as i128) + (r1.1 as i128) * (x.1 as i128);
    proof {
        lemma_product_within(x.0 as int, y0 as int, 0x1_0000_0000, 0x1_0000_0000_0000_0000);
        lemma_product_within(x.1 as int, y1 as int, 0x1_0000_0000, 0x1_0000_0000_0000_0000);
        assert(0x1_0000_0000 * 0x1_0000_0000_0000_0000 == 0x1_0000_0000_0000_0000_0000_0000)
            by (nonlinear_arith);
    }
    (x.0 as i128) * y0 + (x.1 as i128) * y1
}

impl Matrix2 {
    /// The matrix with the two rows given.
    pub fn new(r0: (i32, i32), r1: (i32, i32)) -> (m: Matrix2)
        ensures
            m == (Matrix2 { a: r0.0, b: r0.1, c: r1.0, d: r1.1 }),
    {
        Matrix2 { a: r0.0, b: r0.1, c: r1.0, d: r1.1 }
    }

    /// The determinant `a·d − b·c`.
    pub fn det(&self) -> (det: i64)
        ensures
            det == self@.det(),
    {
        proof {
            lemma_product_within(self.a as int, self.d as int, 0x8000_0000, 0x8000_0000);
            lemma_product_within(self.b as int, self.c as int, 0x8000_0000, 0x8000_0000);
            lemma_det_fits(self@);
        }
        let ad: i64 = (self.a as i64) * (self.d as i64);
        let bc: i64 = (self.b as i64) * (self.c as i64);
        ad - bc
    }

    /// The inverse `(1 / det) · [[d, −b], [−c, a]]`, or `Singular` exactly
    /// when the determinant is zero.
    pub fn inverse(&self) -> (r: Result<Inverse2, DomainError>)
        ensures
            self@.det() == 0 ==> r == Err::<Inverse2, DomainError>(DomainError::Singular),
            self@.det() != 0 ==> r is Ok && r->Ok_0.well_formed() && r->Ok_0.numerator()
                == self@.adjugate() && r->Ok_0.det == self@.det(),
            r is Ok ==> self@.times(r->Ok_0.numerator()) == Mat2::scalar(r->Ok_0.det as int),
            r is Ok ==> r->Ok_0.numerator().times(self@) == Mat2::scalar(r->Ok_0.det as int),
    {
        proof {
            lemma_adjugate_inverts(self@);
        }
        let det: i64 = self.det();
        if det == 0 {
            Err(DomainError::Singular)
        } else {
            Ok(
                Inverse2 {
                    a: self.d as i64,
                    b: -(self.b as i64),
                    c: -(self.c as i64),
                    d: self.a as i64,
                    det,
                },
            )
        }
    }

    /// The quadratic form `xᵗ · (self · x)`.
    pub fn quadratic_form(&self, x: (i32, i32)) -> (q: i128)
        ensures
            q == self@.quadratic_form((x.0 as int, x.1 as int)),
    {
        quadratic_form_wide(
            (self.a as i64, self.b as i64),
            (self.c as i64, self.d as i64),
            (x.0 as i64, x.1 as i64),
        )
    }
}

/// The determinant of a matrix of 32-bit entries fits in 64 bits.
proof fn lemma_det_fits(m: Mat2)
    requires
        -0x8000_0000 <= m.a < 0x8000_0000,
        -0x8000_0000 <= m.b < 0x8000_0000,
        -0x8000_0000 <= m.c < 0x8000_0000,
        -0x8000_0000 <= m.d < 0x8000_0000,
    ensures
        -0x8000_0000_0000_0000 <= m.det() < 0x8000_0000_0000_0000,
{
    assert(m.a * m.d <= 0x4000_0000_0000_0000 && m.b * m.c >= -0x3fff_ffff_8000_0000) by (nonlinear_arith)
        requires
            -0x8000_0000 <= m.a < 0x8000_0000,
            -0x8000_0000 <= m.b < 0x8000_0000,
            -0x8000_0000 <= m.c < 0x8000_0000,
            -0x8000_0000 <= m.d < 0x8000_0000,
    ;
    assert(m.a * m.d >= -0x3fff_ffff_8000_0000 && m.b * m.c <= 0x4000_0000_0000_0000) by (nonlinear_arith)
        requires
            -0x8000_0000 <= m.a < 0x8000_0000,
            -0x8000_0000 <= m.b < 0x8000_0000,
            -0x8000_0000 <= m.c < 0x8000_0000,
            -0x8000_0000 <= m.d < 0x8000_0000,
    ;
}

} // verus!
