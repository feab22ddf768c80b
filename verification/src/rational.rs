//! Exact fractions for the shader-uniform scalars.
//!
//! The filter's uniform record is a set of real-valued constants. Every one
//! of them is an exact fraction of two machine integers (a tuned decimal
//! constant, a reciprocal of a texture extent, or a ratio of two viewport
//! extents), so the derivation is carried out exactly on numerator and
//! denominator; the host divides once when it fills the GPU buffer.

use vstd::prelude::*;

verus! {

/// An exact fraction `num / den`.
///
/// A denominator of zero marks a value with no finite meaning (the
/// reciprocal of a zero texture extent); [`Rat::wf`] excludes it.
#[derive(Debug, Clone, Copy, PartialEq, Eq)]
pub struct Rat {
    pub num: i64,
    pub den: u64,
}

impl Rat {
    /// The fraction denotes a finite value.
    pub open spec fn wf(self) -> bool {
        self.den > 0
    }

    /// Value order on fractions with positive denominators.
    pub open spec fn spec_le(self, other: Rat) -> bool {
        self.num * (other.den as int) <= other.num * (self.den as int)
    }

    /// Builds `num / den`.
    pub fn new(num: i64, den: u64) -> (r: Rat)
        ensures
            r.num == num,
            r.den == den,
    {
        Rat { num, den }
    }
}

/// Two fractions with equal positive denominators are ordered as their
/// numerators.
pub proof fn lemma_le_same_den(a: Rat, b: Rat)
    requires
        a.den == b.den,
        a.den > 0,
        a.num <= b.num,
    ensures
        a.spec_le(b),
{
    vstd::arithmetic::mul::lemma_mul_inequality(a.num as int, b.num as int, a.den as int);
}

} // verus!
