use vstd::prelude::*;
use crate::density::ClosedForm;
use crate::dispatch::{selected, Formula};
use crate::error::DomainError;
use crate::kernel::{flat_kernel, gaussian_kernel, Kernel, StandardNormal};
use crate::matrix::Matrix2;
use crate::point::{Interval, MaybeUniform};

verus! {

/// The Gaussian kernel on the line is symmetric: query and reference may
/// trade places.
pub proof fn lemma_gaussian_symmetric(x: i32, xi: i32, h: i32)
    ensures
        StandardNormal.kernel_form(x, xi, h) == StandardNormal.kernel_form(xi, x, h),
{
    assert((x - xi) * (x - xi) == (xi - x) * (xi - x)) by (nonlinear_arith);
}

/// The Gaussian kernel in the plane is symmetric: query and reference may
/// trade places.
pub proof fn lemma_bivariate_symmetric(x: (i32, i32), xi: (i32, i32), h: Matrix2)
    ensures
        StandardNormal.kernel_form(x, xi, h) == StandardNormal.kernel_form(xi, x, h),
{
    let m = h@.adjugate();
    let d0 = x.0 - xi.0;
    let d1 = x.1 - xi.1;
    let e0 = xi.0 - x.0;
    let e1 = xi.1 - x.1;
    assert(d0 * (m.a * d0 + m.b * d1) + d1 * (m.c * d0 + m.d * d1) == e0 * (m.a * e0 + m.b * e1)
        + e1 * (m.c * e0 + m.d * e1)) by (nonlinear_arith)
        requires
            e0 == -d0,
            e1 == -d1,
    ;
}

/// On the line, a positive bandwidth always gives a Gaussian term, and the
/// term is positive.
pub proof fn lemma_gaussian_positive(x: i32, xi: i32, h: i32)
    requires
        h > 0,
    ensures
        StandardNormal.kernel_form(x, xi, h) is Ok,
        StandardNormal.kernel_form(x, xi, h)->Ok_0 is Gaussian,
        StandardNormal.kernel_form(x, xi, h)->Ok_0.positive(),
{
}

/// In the plane, a bandwidth matrix with a positive determinant always gives
/// a Gaussian term, and the term is positive.
pub proof fn lemma_bivariate_positive(x: (i32, i32), xi: (i32, i32), h: Matrix2)
    requires
        h@.det() > 0,
    ensures
        StandardNormal.kernel_form(x, xi, h) is Ok,
        StandardNormal.kernel_form(x, xi, h)->Ok_0 is Bivariate,
        StandardNormal.kernel_form(x, xi, h)->Ok_0.positive(),
{
}

/// Against a uniform reference over an interval of positive width, under a
/// positive bandwidth, a sample's density is exactly `1 / (width · h)`,
/// whether the query is given bare or as a mixed value; and that term is
/// positive.
pub proof fn lemma_uniform_reference_is_flat(x: i32, range: Interval, h: i32)
    requires
        h > 0,
        range.spec_width() > 0,
    ensures
        StandardNormal.kernel_form(x, MaybeUniform::Uniform(range), h) == Ok::<
            ClosedForm,
            DomainError,
        >(ClosedForm::Flat { scale: range.spec_width() * h }),
        StandardNormal.kernel_form(MaybeUniform::Sample(x), MaybeUniform::Uniform(range), h)
            == StandardNormal.kernel_form(x, MaybeUniform::Uniform(range), h),
        (ClosedForm::Flat { scale: range.spec_width() * h }).positive(),
{
    assert(range.spec_width() * h > 0) by (nonlinear_arith)
        requires
            range.spec_width() > 0,
            h > 0,
    ;
}

/// Between two samples, the kernels on mixed values are the Gaussian kernel
/// on the bare positions, for every bandwidth.
pub proof fn lemma_samples_dispatch_to_gaussian(x: i32, xi: i32, h: i32)
    ensures
        StandardNormal.kernel_form(MaybeUniform::Sample(x), MaybeUniform::Sample(xi), h)
            == StandardNormal.kernel_form(x, xi, h),
        StandardNormal.kernel_form(x, MaybeUniform::Sample(xi), h) == StandardNormal.kernel_form(
            x,
            xi,
            h,
        ),
{
}

/// A uniform query is refused, whatever the reference and the bandwidth.
pub proof fn lemma_uniform_query_refused(range: Interval, xi: MaybeUniform, h: i32)
    ensures
        StandardNormal.kernel_form(MaybeUniform::Uniform(range), xi, h) == Err::<
            ClosedForm,
            DomainError,
        >(DomainError::UniformQuery),
{
}

/// The kernel on mixed values follows the selection by kind. Where the
/// selection refuses a pair, which it does exactly for a uniform query, the
/// kernel refuses it with the same error; where it selects the Gaussian, the
/// kernel is the Gaussian kernel between the two positions; where it selects
/// the flat formula, the kernel is the flat term over the reference's
/// interval.
pub proof fn lemma_kernel_follows_selection(x: MaybeUniform, xi: MaybeUniform, h: i32)
    ensures
        selected(x.spec_kind(), xi.spec_kind()) is Err <==> x is Uniform,
        selected(x.spec_kind(), xi.spec_kind()) is Err ==> StandardNormal.kernel_form(x, xi, h)
            == Err::<ClosedForm, DomainError>(selected(x.spec_kind(), xi.spec_kind())->Err_0),
        selected(x.spec_kind(), xi.spec_kind()) == Ok::<Formula, DomainError>(Formula::Gaussian)
            ==> x is Sample && xi is Sample && StandardNormal.kernel_form(x, xi, h)
            == gaussian_kernel(x->Sample_0 as int, xi->Sample_0 as int, h as int),
        selected(x.spec_kind(), xi.spec_kind()) == Ok::<Formula, DomainError>(Formula::Flat)
            ==> x is Sample && xi is Uniform && StandardNormal.kernel_form(x, xi, h)
            == flat_kernel(xi->Uniform_0.spec_width(), h as int),
{
}

} // verus!
