//! Special and general relativity: the exact, index-level structure of the
//! spacetime objects (metric signature, boost and rotation matrices,
//! Schwarzschild connection coefficients), with the algebraic laws they obey.

use vstd::prelude::*;

pub mod lorentz;
pub mod minkowski;
pub mod tensor;

verus! {

} // verus!
