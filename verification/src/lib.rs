//! Numeric and transform engine of a deep-zoom fractal viewer: exact rational
//! numbers, affine transforms over them, the viewport's pan and zoom rules,
//! and the reference orbit that a fixed-precision renderer perturbs.
use vstd::prelude::*;

pub mod arbitrary_num;
pub mod iteration;
pub mod matrix;
pub mod viewport;

verus! {

/// Number of iterations in a reference orbit.
pub const DEPTH: usize = 500;

} // verus!
