//! The 64-bit XorShift generator.

use vstd::prelude::*;
use crate::endian::{join_u64_u16, join_u64_u32, join_u64_u8};
use devela::convert::{u64_from_u16_le, u64_from_u32_le, u64_from_u8_le};

verus! {

/// One step of the 64-bit XorShift recurrence with the shift triple (13, 7, 17).
pub open spec fn xorshift64(x: u64) -> u64 {
    let a = x ^ (x << 13);
    let b = a ^ (a >> 7);
    b ^ (b << 17)
}

/// The state reached from `x` after `n` steps.
pub open spec fn xorshift64_nth(x: u64, n: nat) -> u64
    decreases n,
{
    if n == 0 {
        x
    } else {
        xorshift64(xorshift64_nth(x, (n - 1) as nat))
    }
}

/// The first `n` numbers produced from the state `x`.
pub open spec fn xorshift64_outputs(x: u64, n: nat) -> Seq<u64> {
    Seq::new(n, |i: int| xorshift64_nth(x, (i + 1) as nat))
}

/// The seed of the default generator.
pub const XORSHIFT64_DEFAULT_SEED: u64 = 0xDEFA_0017_DEFA_0017;

proof fn bits_xorshift64(x: u64, y: u64)
    by (bit_vector)
    ensures
        xorshift64(x) == 0 <==> x == 0,
        x ^ (x << 13) == y ^ (y << 13) ==> x == y,
        x ^ (x >> 7) == y ^ (y >> 7) ==> x == y,
        x ^ (x << 17) == y ^ (y << 17) ==> x == y,
{
}

/// Zero is a fixed point of the step, and no other state steps to zero.
pub proof fn lemma_xorshift64_zero(x: u64)
    ensures
        xorshift64(x) == 0 <==> x == 0,
{
    bits_xorshift64(x, x);
}

/// The step is one-to-one: two states that step to the same state are the
/// same, so every state lies on a cycle.
pub proof fn lemma_xorshift64_injective(x: u64, y: u64)
    requires
        xorshift64(x) == xorshift64(y),
    ensures
        x == y,
{
    let a = x ^ (x << 13);
    let c = y ^ (y << 13);
    let b = a ^ (a >> 7);
    let d = c ^ (c >> 7);
    bits_xorshift64(b, d);
    bits_xorshift64(a, c);
    bits_xorshift64(x, y);
}

/// No number of steps leads from a non-zero state to zero.
pub proof fn lemma_xorshift64_nth_nonzero(x: u64, n: nat)
    requires
        x != 0,
    ensures
        xorshift64_nth(x, n) != 0,
    decreases n,
{
    if n > 0 {
        lemma_xorshift64_nth_nonzero(x, (n - 1) as nat);
        lemma_xorshift64_zero(xorshift64_nth(x, (n - 1) as nat));
    }
}

/// The `XorShift64` pseudo-random number generator.
///
/// It has a 64-bit state, which is never zero, and generates 64-bit numbers.
/// Its view is that state.
#[derive(Clone, Copy, Debug, PartialEq, Eq)]
pub struct XorShift64(u64);

impl View for XorShift64 {
    type V = u64;

    closed spec fn view(&self) -> u64 {
        self.0
    }
}

impl Default for XorShift64 {
    /// Returns the generator seeded with [`XORSHIFT64_DEFAULT_SEED`].
    fn default() -> (r: Self)
        ensures
            r@ == XORSHIFT64_DEFAULT_SEED,
    {
        Self::new_unchecked(XORSHIFT64_DEFAULT_SEED)
    }
}

impl XorShift64 {
    #[verifier::type_invariant]
    spec fn nonzero(self) -> bool {
        self.0 != 0
    }

    /// The generator one step ahead of `self`.
    pub closed spec fn peek(self) -> Self {
        XorShift64(xorshift64(self.0))
    }

    /// Returns a seeded `XorShift64` generator from the given 64-bit seed.
    ///
    /// Returns `None` if the seed is `0`.
    pub fn new(seed: u64) -> (r: Option<Self>)
        ensures
            seed == 0 <==> r is None,
            r matches Some(g) ==> g@ == seed,
    {
        if seed == 0 {
            None
        } else {
            Some(Self(seed))
        }
    }

    /// Returns a seeded `XorShift64` generator from the given 64-bit seed,
    /// which must not be `0`.
    pub fn new_unchecked(seed: u64) -> (r: Self)
        requires
            seed != 0,
        ensures
            r@ == seed,
    {
        Self(seed)
    }

    /// Returns the current random `u64`.
    pub fn current_u16(&self) -> (r: u64)
        ensures
            r == self@,
            r != 0,
    {
        proof {
            use_type_invariant(self);
        }
        self.0
    }

    /// Advances the state by one step and returns the next random `u64`.
    pub fn next_u64(&mut self) -> (r: u64)
        ensures
            *final(self) == old(self).peek(),
            final(self)@ == xorshift64(old(self)@),
            r == final(self)@,
            r != 0,
    {
        proof {
            use_type_invariant(&*self);
            lemma_xorshift64_zero(self.0);
        }
        let mut x: u64 = self.0;
        x ^= x << 13;
        x ^= x >> 7;
        x ^= x << 17;
        self.0 = x;
        x
    }

    /// Returns a copy of the next new random state, leaving `self` as it is.
    pub fn next_new(&self) -> (r: Self)
        ensures
            r == self.peek(),
            r@ == xorshift64(self@),
    {
        proof {
            use_type_invariant(self);
            lemma_xorshift64_zero(self.0);
        }
        let mut x: u64 = self.0;
        x ^= x << 13;
        x ^= x >> 7;
        x ^= x << 17;
        Self(x)
    }

    /// Two generators in the same state are equal, and so are all the numbers
    /// they go on to produce.
    pub proof fn lemma_deterministic(self, other: Self, n: nat)
        requires
            self@ == other@,
        ensures
            self == other,
            xorshift64_outputs(self@, n) == xorshift64_outputs(other@, n),
            xorshift64_nth(self@, n) == xorshift64_nth(other@, n),
    {
    }

    /// Peeking gives the generator that advancing leads to: its state is one
    /// step ahead, and zero only if the state of `self` is.
    pub proof fn lemma_peek(self)
        ensures
            self.peek()@ == xorshift64(self@),
            self@ != 0 <==> self.peek()@ != 0,
    {
        lemma_xorshift64_zero(self@);
    }
}

/// # Extra constructors
impl XorShift64 {
    /// Returns a seeded `XorShift64` generator from the given 64-bit seed.
    ///
    /// This is an alias of [`new`][Self::new].
    pub fn new1_u64(seed: u64) -> (r: Option<Self>)
        ensures
            seed == 0 <==> r is None,
            r matches Some(g) ==> g@ == seed,
    {
        Self::new(seed)
    }

    /// Returns a seeded `XorShift64` generator from the given 2 × 32-bit
    /// seeds, joined in little-endian order.
    ///
    /// Returns `None` if both seeds are `0`.
    pub fn new2_u32(seeds: [u32; 2]) -> (r: Option<Self>)
        ensures
            join_u64_u32(seeds@) == 0 <==> r is None,
            r matches Some(g) ==> g@ == join_u64_u32(seeds@),
    {
        Self::new(u64_from_u32_le(seeds))
    }

    /// Returns a seeded `XorShift64` generator from the given 4 × 16-bit
    /// seeds, joined in little-endian order.
    ///
    /// Returns `None` if all seeds are `0`.
    pub fn new4_u16(seeds: [u16; 4]) -> (r: Option<Self>)
        ensures
            join_u64_u16(seeds@) == 0 <==> r is None,
            r matches Some(g) ==> g@ == join_u64_u16(seeds@),
    {
        Self::new(u64_from_u16_le(seeds))
    }

    /// Returns a seeded `XorShift64` generator from the given 8 × 8-bit
    /// seeds, joined in little-endian order.
    ///
    /// Returns `None` if all seeds are `0`.
    pub fn new8_u8(seeds: [u8; 8]) -> (r: Option<Self>)
        ensures
            join_u64_u8(seeds@) == 0 <==> r is None,
            r matches Some(g) ==> g@ == join_u64_u8(seeds@),
    {
        Self::new(u64_from_u8_le(seeds))
    }
}

} // verus!
