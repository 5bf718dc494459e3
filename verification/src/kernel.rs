use vstd::prelude::*;
use crate::density::{outcome, ClosedForm, Density};
use crate::error::DomainError;
use crate::matrix::{lemma_product_within, Mat2, Matrix2};
use crate::point::{Interval, MaybeUniform, Point};

verus! {

/// `(x − xi)²`.
pub open spec fn squared_distance(x: int, xi: int) -> int {
    (x - xi) * (x - xi)
}

/// The Gaussian kernel on the line: for a positive bandwidth `h`,
/// `exp(−(x − xi)² / (2·h²)) / (√(2π) · h)`.
pub open spec fn gaussian_kernel(x: int, xi: int, h: int) -> Result<ClosedForm, DomainError> {
    if h <= 0 {
        Err(DomainError::NonPositiveBandwidth)
    } else {
        Ok(ClosedForm::Gaussian { sq_dist: squared_distance(x, xi), h })
    }
}

/// The contribution of a uniform marker over an interval of the width given:
/// `1 / (width · h)`. A bandwidth that is not positive is reported before a
/// width that is not.
pub open spec fn flat_kernel(width: int, h: int) -> Result<ClosedForm, DomainError> {
    if h <= 0 {
        Err(DomainError::NonPositiveBandwidth)
    } else if width <= 0 {
        Err(DomainError::NonPositiveWidth)
    } else {
        Ok(ClosedForm::Flat { scale: width * h })
    }
}

/// The kernel for a query on the line and a reference that may be a uniform
/// marker.
pub open spec fn mixed_reference_kernel(x: int, xi: MaybeUniform, h: int) -> Result<
    ClosedForm,
    DomainError,
> {
    match xi {
        MaybeUniform::Sample(s) => gaussian_kernel(x, s as int, h),
        MaybeUniform::Uniform(range) => flat_kernel(range.spec_width(), h),
    }
}

/// The kernel for a query and a reference that may each be a uniform marker.
/// A uniform query has no position, so it is refused whatever the rest is.
pub open spec fn mixed_kernel(x: MaybeUniform, xi: MaybeUniform, h: int) -> Result<
    ClosedForm,
    DomainError,
> {
    match x {
        MaybeUniform::Uniform(_) => Err(DomainError::UniformQuery),
        MaybeUniform::Sample(s) => mixed_reference_kernel(s as int, xi, h),
    }
}

/// The Gaussian kernel in the plane, with covariance `h`: for `d = x − xi`
/// and `det(h) > 0`, `(1 / 2π) · det(h)^(−1/2) · exp(−½ · dᵗ·h⁻¹·d)`, where
/// `dᵗ·h⁻¹·d` is the quadratic form of the adjugate divided by `det(h)`.
pub open spec fn bivariate_kernel(x: (int, int), xi: (int, int), h: Mat2) -> Result<
    ClosedForm,
    DomainError,
> {
    if h.det() <= 0 {
        Err(DomainError::NotPositiveDefinite)
    } else {
        Ok(
            ClosedForm::Bivariate {
                quad: h.adjugate().quadratic_form((x.0 - xi.0, x.1 - xi.1)),
                det: h.det(),
            },
        )
    }
}

/// The standard normal density on the line: `exp(−x² / 2) / √(2π)`.
pub open spec fn normal_pdf(x: int) -> ClosedForm {
    ClosedForm::Gaussian { sq_dist: x * x, h: 1 }
}

/// The standard normal density in the plane: `exp(−(x² + y²) / 2) / 2π`.
pub open spec fn bivariate_normal_pdf(x: (int, int)) -> ClosedForm {
    ClosedForm::Bivariate { quad: x.0 * x.0 + x.1 * x.1, det: 1 }
}

/// The marginal density of a coordinate that may be a uniform marker: the
/// standard normal density at a sample, `1 / width` over an interval.
pub open spec fn mixed_pdf(x: MaybeUniform) -> Result<ClosedForm, DomainError> {
    match x {
        MaybeUniform::Sample(s) => Ok(normal_pdf(s as int)),
        MaybeUniform::Uniform(range) => if range.spec_width() <= 0 {
            Err(DomainError::NonPositiveWidth)
        } else {
            Ok(ClosedForm::Flat { scale: range.spec_width() })
        },
    }
}

/// A distribution with a density at points of kind `P`.
pub trait Pdf<P> {
    /// The density at `x`, or why there is none.
    spec fn pdf_form(&self, x: P) -> Result<ClosedForm, DomainError>;

    /// The density at `x`.
    fn pdf(&self, x: &P) -> (r: Result<Density, DomainError>)
        ensures
            outcome(r) == self.pdf_form(*x),
            r is Ok ==> r->Ok_0@.positive(),
    ;
}

/// A smoothing kernel: the contribution of the reference point `xi` to the
/// density at the query point `x`.
pub trait Kernel<P: Point, RHS = P>: Pdf<P> {
    /// The contribution as a closed form, or why there is none.
    spec fn kernel_form(&self, x: P, xi: RHS, bandwidth: P::Bandwidth) -> Result<
        ClosedForm,
        DomainError,
    >;

    /// The contribution of `xi` at `x` under the bandwidth given.
    fn density(&self, x: &P, xi: &RHS, bandwidth: &P::Bandwidth) -> (r: Result<
        Density,
        DomainError,
    >)
        ensures
            outcome(r) == self.kernel_form(*x, *xi, *bandwidth),
            r is Ok ==> r->Ok_0@.positive(),
    ;
}

/// The standard normal distribution, used as the Gaussian kernel.
#[derive(Clone, Copy, Debug)]
pub struct StandardNormal;

/// `(x − xi)²` in 64 bits.
fn squared_difference(x: i32, xi: i32) -> (sq: u64)
    ensures
        sq == squared_distance(x as int, xi as int),
{
    let d: i128 = x as i128 - xi as i128;
    proof {
        lemma_product_within(d as int, d as int, 0xffff_ffff, 0xffff_ffff);
        assert(0xffff_ffff * 0xffff_ffff == 0xffff_fffe_0000_0001) by (nonlinear_arith);
        assert(d * d >= 0) by (nonlinear_arith);
    }
    (d * d) as u64
}

impl Pdf<i32> for StandardNormal {
    open spec fn pdf_form(&self, x: i32) -> Result<ClosedForm, DomainError> {
        Ok(normal_pdf(x as int))
    }

    fn pdf(&self, x: &i32) -> (r: Result<Density, DomainError>) {
        Ok(Density::Gaussian { sq_dist: squared_difference(*x, 0), h: 1 })
    }
}

impl Kernel<i32> for StandardNormal {
    open spec fn kernel_form(&self, x: i32, xi: i32, bandwidth: i32) -> Result<
        ClosedForm,
        DomainError,
    > {
        gaussian_kernel(x as int, xi as int, bandwidth as int)
    }

    fn density(&self, x: &i32, xi: &i32, bandwidth: &i32) -> (r: Result<Density, DomainError>) {
        let h: i32 = *bandwidth;
        if h <= 0 {
            Err(DomainError::NonPositiveBandwidth)
        } else {
            Ok(Density::Gaussian { sq_dist: squared_difference(*x, *xi), h })
        }
    }
}

/// The contribution of a uniform marker over `range` under the bandwidth `h`.
fn flat_density(range: &Interval, h: i32) -> (r: Result<Density, DomainError>)
    ensures
        outcome(r) == flat_kernel(range.spec_width(), h as int),
        r is Ok ==> r->Ok_0@.positive(),
{
    let width: i64 = range.width();
    if h <= 0 {
        Err(DomainError::NonPositiveBandwidth)
    } else if width <= 0 {
        Err(DomainError::NonPositiveWidth)
    } else {
        proof {
            lemma_product_within(width as int, h as int, 0xffff_ffff, 0x7fff_ffff);
            assert(0xffff_ffff * 0x7fff_ffff == 0x7fff_fffe_8000_0001) by (nonlinear_arith);
            assert(width * h > 0) by (nonlinear_arith)
                requires
                    width > 0,
                    h > 0,
            ;
        }
        Ok(Density::Flat { scale: width * (h as i64) })
    }
}

impl Kernel<i32, MaybeUniform> for StandardNormal {
    open spec fn kernel_form(&self, x: i32, xi: MaybeUniform, bandwidth: i32) -> Result<
        ClosedForm,
        DomainError,
    > {
        mixed_reference_kernel(x as int, xi, bandwidth as int)
    }

    fn density(&self, x: &i32, xi: &MaybeUniform, bandwidth: &i32) -> (r: Result<
        Density,
        DomainError,
    >) {
        match xi {
            MaybeUniform::Sample(s) => self.density(x, s, bandwidth),
            MaybeUniform::Uniform(range) => flat_density(range, *bandwidth),
        }
    }
}

impl Pdf<MaybeUniform> for StandardNormal {
    open spec fn pdf_form(&self, x: MaybeUniform) -> Result<ClosedForm, DomainError> {
        mixed_pdf(x)
    }

    fn pdf(&self, x: &MaybeUniform) -> (r: Result<Density, DomainError>) {
        match x {
            MaybeUniform::Sample(s) => self.pdf(s),
            MaybeUniform::Uniform(range) => {
                let width: i64 = range.width();
                if width <= 0 {
                    Err(DomainError::NonPositiveWidth)
                } else {
                    Ok(Density::Flat { scale: width })
                }
            },
        }
    }
}

impl Kernel<MaybeUniform> for StandardNormal {
    open spec fn kernel_form(&self, x: MaybeUniform, xi: MaybeUniform, bandwidth: i32) -> Result<
        ClosedForm,
        DomainError,
    > {
        mixed_kernel(x, xi, bandwidth as int)
    }

    fn density(&self, x: &MaybeUniform, xi: &MaybeUniform, bandwidth: &i32) -> (r: Result<
        Density,
        DomainError,
    >) {
        match x {
            MaybeUniform::Uniform(_) => Err(DomainError::UniformQuery),
            MaybeUniform::Sample(s) => self.density(s, xi, bandwidth),
        }
    }
}

impl Pdf<(i32, i32)> for StandardNormal {
    open spec fn pdf_form(&self, x: (i32, i32)) -> Result<ClosedForm, DomainError> {
        Ok(bivariate_normal_pdf((x.0 as int, x.1 as int)))
    }

    fn pdf(&self, x: &(i32, i32)) -> (r: Result<Density, DomainError>) {
        let sx: u64 = squared_difference(x.0, 0);
        let sy: u64 = squared_difference(x.1, 0);
        Ok(Density::Bivariate { quad: sx as i128 + sy as i128, det: 1 })
    }
}

impl Kernel<(i32, i32)> for StandardNormal {
    open spec fn kernel_form(&self, x: (i32, i32), xi: (i32, i32), bandwidth: Matrix2) -> Result<
        ClosedForm,
        DomainError,
    > {
        bivariate_kernel((x.0 as int, x.1 as int), (xi.0 as int, xi.1 as int), bandwidth@)
    }

    fn density(&self, x: &(i32, i32), xi: &(i32, i32), bandwidth: &Matrix2) -> (r: Result<
        Density,
        DomainError,
    >) {
        match bandwidth.inverse() {
            Err(_) => Err(DomainError::NotPositiveDefinite),
            Ok(inverse) => {
                if inverse.det < 0 {
                    Err(DomainError::NotPositiveDefinite)
                } else {
                    let d: (i64, i64) = (x.0 as i64 - xi.0 as i64, x.1 as i64 - xi.1 as i64);
                    Ok(Density::Bivariate { quad: inverse.quadratic_form(d), det: inverse.det })
                }
            },
        }
    }
}

} // verus!
