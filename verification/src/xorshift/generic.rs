//! Const generic version of the 8-bit XorShift generator.

use vstd::prelude::*;
use super::x8::{lemma_xorshift8_with_zero, valid_shifts8, xorshift8_with};

verus! {

/// Const generic version of the 8-bit XorShift algorithm letting you
/// customize the shifts.
///
/// It has an 8-bit state, which is never zero, and generates 8-bit numbers.
/// Its view is that state. The shifts must each be within `1..=7`.
#[derive(Clone, Copy, Debug, PartialEq, Eq)]
pub struct XorShift8Gen<const S1: usize, const S2: usize, const S3: usize>(u8);

impl<const S1: usize, const S2: usize, const S3: usize> View for XorShift8Gen<S1, S2, S3> {
    type V = u8;

    closed spec fn view(&self) -> u8 {
        self.0
    }
}

impl<const S1: usize, const S2: usize, const S3: usize> XorShift8Gen<S1, S2, S3> {
    #[verifier::type_invariant]
    spec fn nonzero(self) -> bool {
        self.0 != 0
    }

    /// Whether the shifts of this type are all within `1..=7`.
    pub open spec fn valid_shifts() -> bool {
        valid_shifts8(S1, S2, S3)
    }

    /// One step of this type's recurrence.
    pub open spec fn step(x: u8) -> u8 {
        xorshift8_with(x, S1, S2, S3)
    }

    /// Returns a seeded `XorShift8Gen` generator from the given 8-bit seed.
    ///
    /// Returns `None` if the seed is `0`.
    pub fn new(seed: u8) -> (r: Option<Self>)
        requires
            Self::valid_shifts(),
        ensures
            seed == 0 <==> r is None,
            r matches Some(g) ==> g@ == seed,
    {
        if seed == 0 {
            None
        } else {
            Some(Self(seed))
        }
    }

    /// Advances the state by one step and returns the next random `u8`.
    pub fn next_u8(&mut self) -> (r: u8)
        requires
            Self::valid_shifts(),
        ensures
            final(self)@ == Self::step(old(self)@),
            r == final(self)@,
            r != 0,
    {
        proof {
            use_type_invariant(&*self);
            lemma_xorshift8_with_zero(self.0, S1, S2, S3);
        }
        let mut x: u8 = self.0;
        x ^= x << S1;
        x ^= x >> S2;
        x ^= x << S3;
        self.0 = x;
        x
    }

    /// Two generators in the same state are equal, and so are the states
    /// that they step to.
    pub proof fn lemma_deterministic(self, other: Self)
        requires
            self@ == other@,
        ensures
            self == other,
            Self::step(self@) == Self::step(other@),
    {
    }
}

} // verus!
