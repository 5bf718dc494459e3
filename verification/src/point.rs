use vstd::prelude::*;
use crate::matrix::Matrix2;

verus! {

/// A point that a kernel can be evaluated at, together with the kind of
/// bandwidth that smooths it.
pub trait Point {
    /// A scalar for points on the line, a 2×2 matrix for points in the plane.
    type Bandwidth;
}

impl Point for i32 {
    type Bandwidth = i32;
}

impl Point for (i32, i32) {
    type Bandwidth = Matrix2;
}

impl Point for MaybeUniform {
    type Bandwidth = i32;
}

/// The interval from `lower` to `upper`.
#[derive(Clone, Copy, Debug, PartialEq, Eq, Structural)]
pub struct Interval {
    pub lower: i32,
    pub upper: i32,
}

impl Interval {
    /// `upper − lower`.
    pub open spec fn spec_width(self) -> int {
        self.upper - self.lower
    }

    /// The interval with the two bounds given.
    pub fn new(lower: i32, upper: i32) -> (r: Interval)
        ensures
            r == (Interval { lower, upper }),
    {
        Interval { lower, upper }
    }

    /// `upper − lower`.
    pub fn width(&self) -> (w: i64)
        ensures
            w == self.spec_width(),
    {
        self.upper as i64 - self.lower as i64
    }
}

/// One coordinate of a data set that mixes observations with flat
/// background: either a sample at a position, or a marker for a uniform
/// distribution over an interval.
#[derive(Clone, Copy, Debug, PartialEq, Eq, Structural)]
pub enum MaybeUniform {
    Sample(i32),
    Uniform(Interval),
}

} // verus!
