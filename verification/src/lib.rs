//! Exact closed forms of Gaussian kernel density terms.
//!
//! Points live on an integer grid (fixed-point coordinates). For a query
//! point, a reference point and a bandwidth, the kernel picks the formula
//! that the kinds of the operands call for and returns it as a closed form
//! whose parameters are exact integers; evaluating the exponential and the
//! square root is left to the caller.

pub mod error;
pub mod matrix;
pub mod point;
pub mod density;
pub mod kernel;
pub mod dispatch;
pub mod lemmas;
