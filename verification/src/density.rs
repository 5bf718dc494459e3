use vstd::prelude::*;
use crate::error::DomainError;

verus! {

/// A density as a closed form over the mathematical integers.
pub enum ClosedForm {
    /// `exp(−sq_dist / (2·h²)) / (√(2π) · h)`
    Gaussian { sq_dist: int, h: int },
    /// `1 / scale`
    Flat { scale: int },
    /// `(1 / 2π) · det^(−1/2) · exp(−quad / (2·det))`
    Bivariate { quad: int, det: int },
}

impl ClosedForm {
    /// The form denotes a positive real number: every divisor and every
    /// radicand in it is positive (an exponential always is).
    pub open spec fn positive(self) -> bool {
        match self {
            ClosedForm::Gaussian { h, .. } => h > 0,
            ClosedForm::Flat { scale } => scale > 0,
            ClosedForm::Bivariate { det, .. } => det > 0,
        }
    }
}

/// A density as a closed form with exact integer parameters.
#[derive(Clone, Copy, Debug, PartialEq, Eq, Structural)]
pub enum Density {
    /// `exp(−sq_dist / (2·h²)) / (√(2π) · h)`
    Gaussian { sq_dist: u64, h: i32 },
    /// `1 / scale`
    Flat { scale: i64 },
    /// `(1 / 2π) · det^(−1/2) · exp(−quad / (2·det))`
    Bivariate { quad: i128, det: i64 },
}

impl View for Density {
    type V = ClosedForm;

    open spec fn view(&self) -> ClosedForm {
        match *self {
            Density::Gaussian { sq_dist, h } => ClosedForm::Gaussian {
                sq_dist: sq_dist as int,
                h: h as int,
            },
            Density::Flat { scale } => ClosedForm::Flat { scale: scale as int },
            Density::Bivariate { quad, det } => ClosedForm::Bivariate {
                quad: quad as int,
                det: det as int,
            },
        }
    }
}

/// The outcome of an evaluation, the density taken by its view.
pub open spec fn outcome(r: Result<Density, DomainError>) -> Result<ClosedForm, DomainError> {
    match r {
        Ok(d) => Ok(d@),
        Err(e) => Err(e),
    }
}

} // verus!
