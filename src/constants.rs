//! Choices of the initial radial distribution of the gas.
use vstd::prelude::*;

verus! {

/// How the initial density falls off with distance from the centre.
#[derive(Clone, Copy, Debug, PartialEq, Eq, Structural)]
pub enum DensityCurve {
    Uniform,
    InverseLinear,
    InverseQuadratic,
}

impl DensityCurve {
    /// The power of the distance by which density falls off.
    pub open spec fn spec_falloff_exponent(self) -> u32 {
        match self {
            DensityCurve::Uniform => 0,
            DensityCurve::InverseLinear => 1,
            DensityCurve::InverseQuadratic => 2,
        }
    }

    /// The power of the distance by which density falls off: density is
    /// proportional to `r` raised to minus this.
    pub fn falloff_exponent(self) -> (e: u32)
        ensures
            e == self.spec_falloff_exponent(),
            e < 3,
    {
        match self {
            DensityCurve::Uniform => 0,
            DensityCurve::InverseLinear => 1,
            DensityCurve::InverseQuadratic => 2,
        }
    }
}

} // verus!
