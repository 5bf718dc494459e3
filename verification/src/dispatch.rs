use vstd::prelude::*;
use crate::error::DomainError;
use crate::point::MaybeUniform;

verus! {

/// What a coordinate is, apart from its value.
#[derive(Clone, Copy, Debug, PartialEq, Eq, Structural)]
pub enum Kind {
    /// An observation at a position.
    Sample,
    /// A marker for a uniform distribution over an interval.
    Uniform,
}

/// The formula that a pair of operands calls for.
#[derive(Clone, Copy, Debug, PartialEq, Eq, Structural)]
pub enum Formula {
    /// The Gaussian kernel between two positions.
    Gaussian,
    /// The constant `1 / (width · h)` of a uniform reference.
    Flat,
}

/// The formula for a query and a reference of the kinds given. A uniform
/// query is refused whatever the reference is; otherwise the reference
/// decides.
pub open spec fn selected(query: Kind, reference: Kind) -> Result<Formula, DomainError> {
    match (query, reference) {
        (Kind::Uniform, _) => Err(DomainError::UniformQuery),
        (Kind::Sample, Kind::Sample) => Ok(Formula::Gaussian),
        (Kind::Sample, Kind::Uniform) => Ok(Formula::Flat),
    }
}

/// Picks the formula for a query and a reference of the kinds given.
pub fn select(query: Kind, reference: Kind) -> (r: Result<Formula, DomainError>)
    ensures
        r == selected(query, reference),
{
    match query {
        Kind::Uniform => Err(DomainError::UniformQuery),
        Kind::Sample => match reference {
            Kind::Sample => Ok(Formula::Gaussian),
            Kind::Uniform => Ok(Formula::Flat),
        },
    }
}

impl MaybeUniform {
    /// The kind of this coordinate.
    pub open spec fn spec_kind(self) -> Kind {
        match self {
            MaybeUniform::Sample(_) => Kind::Sample,
            MaybeUniform::Uniform(_) => Kind::Uniform,
        }
    }

    /// The kind of this coordinate.
    pub fn kind(&self) -> (k: Kind)
        ensures
            k == self.spec_kind(),
    {
        match self {
            MaybeUniform::Sample(_) => Kind::Sample,
            MaybeUniform::Uniform(_) => Kind::Uniform,
        }
    }
}

} // verus!
