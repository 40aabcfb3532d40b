//! The 8-bit XorShift generators: the fixed shift triple (3, 4, 2) and the
//! one whose shifts are chosen by the caller.

use vstd::prelude::*;
use crate::endian::{join_u32_u8, join_u64_u8};
use devela::convert::{u32_from_u8_le, u64_from_u8_le};

verus! {

/// One step of the 8-bit XorShift recurrence with the shift triple
/// `(s1, s2, s3)`: left, right, left.
pub open spec fn xorshift8_with(x: u8, s1: usize, s2: usize, s3: usize) -> u8 {
    let a = x ^ (x << s1);
    let b = a ^ (a >> s2);
    b ^ (b << s3)
}

/// Whether the three shifts are all within `1..=7`, as an 8-bit state needs.
pub open spec fn valid_shifts8(s1: usize, s2: usize, s3: usize) -> bool {
    1 <= s1 <= 7 && 1 <= s2 <= 7 && 1 <= s3 <= 7
}

/// The state reached from `x` after `n` steps with the triple `(s1, s2, s3)`.
pub open spec fn xorshift8_with_nth(x: u8, s1: usize, s2: usize, s3: usize, n: nat) -> u8
    decreases n,
{
    if n == 0 {
        x
    } else {
        xorshift8_with(xorshift8_with_nth(x, s1, s2, s3, (n - 1) as nat), s1, s2, s3)
    }
}

/// The first `n` numbers produced from the state `x` with the triple
/// `(s1, s2, s3)`.
pub open spec fn xorshift8_with_outputs(x: u8, s1: usize, s2: usize, s3: usize, n: nat) -> Seq<
    u8,
> {
    Seq::new(n, |i: int| xorshift8_with_nth(x, s1, s2, s3, (i + 1) as nat))
}

/// One step of the 8-bit XorShift recurrence with the shift triple (3, 4, 2).
pub open spec fn xorshift8(x: u8) -> u8 {
    xorshift8_with(x, 3, 4, 2)
}

/// The state reached from `x` after `n` steps with the triple (3, 4, 2).
pub open spec fn xorshift8_nth(x: u8, n: nat) -> u8 {
    xorshift8_with_nth(x, 3, 4, 2, n)
}

/// The first `n` numbers produced from the state `x` with the triple
/// (3, 4, 2).
pub open spec fn xorshift8_outputs(x: u8, n: nat) -> Seq<u8> {
    xorshift8_with_outputs(x, 3, 4, 2, n)
}

/// The seed of the default 8-bit generators.
pub const XORSHIFT8_DEFAULT_SEED: u8 = 0xDE;

proof fn bits_xorshift8(x: u8, y: u8, s1: usize, s2: usize, s3: usize)
    by (bit_vector)
    requires
        1 <= s1 <= 7,
        1 <= s2 <= 7,
        1 <= s3 <= 7,
    ensures
        xorshift8_with(x, s1, s2, s3) == 0 <==> x == 0,
        xorshift8_with(x, s1, s2, s3) == xorshift8_with(y, s1, s2, s3) ==> x == y,
{
}

/// With valid shifts zero is a fixed point of the step, and no other state
/// steps to zero.
pub proof fn lemma_xorshift8_with_zero(x: u8, s1: usize, s2: usize, s3: usize)
    requires
        valid_shifts8(s1, s2, s3),
    ensures
        xorshift8_with(x, s1, s2, s3) == 0 <==> x == 0,
{
    bits_xorshift8(x, x, s1, s2, s3);
}

/// With valid shifts the step is one-to-one: two states that step to the
/// same state are the same, so every state lies on a cycle.
pub proof fn lemma_xorshift8_with_injective(x: u8, y: u8, s1: usize, s2: usize, s3: usize)
    requires
        valid_shifts8(s1, s2, s3),
        xorshift8_with(x, s1, s2, s3) == xorshift8_with(y, s1, s2, s3),
    ensures
        x == y,
{
    bits_xorshift8(x, y, s1, s2, s3);
}

/// With valid shifts no number of steps leads from a non-zero state to zero.
pub proof fn lemma_xorshift8_with_nth_nonzero(x: u8, s1: usize, s2: usize, s3: usize, n: nat)
    requires
        x != 0,
        valid_shifts8(s1, s2, s3),
    ensures
        xorshift8_with_nth(x, s1, s2, s3, n) != 0,
    decreases n,
{
    if n > 0 {
        lemma_xorshift8_with_nth_nonzero(x, s1, s2, s3, (n - 1) as nat);
        lemma_xorshift8_with_zero(xorshift8_with_nth(x, s1, s2, s3, (n - 1) as nat), s1, s2, s3);
    }
}

/// The `XorShift8` pseudo-random number generator.
///
/// It has an 8-bit state, which is never zero, and generates 8-bit numbers
/// with the shift triple (3, 4, 2). Its view is that state.
#[derive(Clone, Copy, Debug, PartialEq, Eq)]
pub struct XorShift8(u8);

impl View for XorShift8 {
    type V = u8;

    closed spec fn view(&self) -> u8 {
        self.0
    }
}

impl Default for XorShift8 {
    /// Returns the generator seeded with [`XORSHIFT8_DEFAULT_SEED`].
    fn default() -> (r: Self)
        ensures
            r@ == XORSHIFT8_DEFAULT_SEED,
    {
        Self::new_unchecked(XORSHIFT8_DEFAULT_SEED)
    }
}

impl XorShift8 {
    #[verifier::type_invariant]
    spec fn nonzero(self) -> bool {
        self.0 != 0
    }

    /// The generator one step ahead of `self`.
    pub closed spec fn peek(self) -> Self {
        XorShift8(xorshift8(self.0))
    }

    /// Returns a seeded `XorShift8` generator from the given 8-bit seed.
    ///
    /// Returns `None` if the seed is `0`.
    pub fn new(seed: u8) -> (r: Option<Self>)
        ensures
            seed == 0 <==> r is None,
            r matches Some(g) ==> g@ == seed,
    {
        if seed == 0 {
            None
        } else {
            Some(Self(seed))
        }
    }

    /// Returns a seeded `XorShift8` generator from the given 8-bit seed,
    /// which must not be `0`.
    pub fn new_unchecked(seed: u8) -> (r: Self)
        requires
            seed != 0,
        ensures
            r@ == seed,
    {
        Self(seed)
    }

    /// Returns the current random `u8`.
    pub fn current_u8(&self) -> (r: u8)
        ensures
            r == self@,
            r != 0,
    {
        proof {
            use_type_invariant(self);
        }
        self.0
    }

    /// Advances the state by one step and returns the next random `u8`.
    pub fn next_u8(&mut self) -> (r: u8)
        ensures
            *final(self) == old(self).peek(),
            final(self)@ == xorshift8(old(self)@),
            r == final(self)@,
            r != 0,
    {
        proof {
            use_type_invariant(&*self);
            lemma_xorshift8_with_zero(self.0, 3, 4, 2);
        }
        let mut x: u8 = self.0;
        x ^= x << 3;
        x ^= x >> 4;
        x ^= x << 2;
        self.0 = x;
        x
    }

    /// Returns a copy of the next new random state, leaving `self` as it is.
    pub fn next_new(&self) -> (r: Self)
        ensures
            r == self.peek(),
            r@ == xorshift8(self@),
    {
        proof {
            use_type_invariant(self);
            lemma_xorshift8_with_zero(self.0, 3, 4, 2);
        }
        let mut x: u8 = self.0;
        x ^= x << 3;
        x ^= x >> 4;
        x ^= x << 2;
        Self(x)
    }

    /// Two generators in the same state are equal, and so are all the numbers
    /// they go on to produce.
    pub proof fn lemma_deterministic(self, other: Self, n: nat)
        requires
            self@ == other@,
        ensures
            self == other,
            xorshift8_outputs(self@, n) == xorshift8_outputs(other@, n),
            xorshift8_nth(self@, n) == xorshift8_nth(other@, n),
    {
    }

    /// Peeking gives the generator that advancing leads to: its state is one
    /// step ahead, and zero only if the state of `self` is.
    pub proof fn lemma_peek(self)
        ensures
            self.peek()@ == xorshift8(self@),
            self@ != 0 <==> self.peek()@ != 0,
    {
        lemma_xorshift8_with_zero(self@, 3, 4, 2);
    }
}

/// # Wider outputs, byte buffers and byte seeds
impl XorShift8 {
    /// Returns the next 4 × random `u8` combined as a single `u32`, the first
    /// one in the lowest byte.
    pub fn next_u32(&mut self) -> (r: u32)
        ensures
            final(self)@ == xorshift8_nth(old(self)@, 4),
            r == join_u32_u8(xorshift8_outputs(old(self)@, 4)),
    {
        let a = self.next_u8();
        let b = self.next_u8();
        let c = self.next_u8();
        let d = self.next_u8();
        proof {
            reveal_with_fuel(xorshift8_with_nth, 5);
        }
        u32_from_u8_le([a, b, c, d])
    }

    /// Returns the next 8 × random `u8` combined as a single `u64`, the first
    /// one in the lowest byte.
    pub fn next_u64(&mut self) -> (r: u64)
        ensures
            final(self)@ == xorshift8_nth(old(self)@, 8),
            r == join_u64_u8(xorshift8_outputs(old(self)@, 8)),
    {
        let a = self.next_u8();
        let b = self.next_u8();
        let c = self.next_u8();
        let d = self.next_u8();
        let e = self.next_u8();
        let f = self.next_u8();
        let g = self.next_u8();
        let h = self.next_u8();
        proof {
            reveal_with_fuel(xorshift8_with_nth, 9);
        }
        u64_from_u8_le([a, b, c, d, e, f, g, h])
    }

    /// Fills `dest` with the next random numbers, one for each byte.
    pub fn fill_bytes(&mut self, dest: &mut [u8])
        ensures
            final(self)@ == xorshift8_nth(old(self)@, old(dest)@.len()),
            final(dest)@ == xorshift8_outputs(old(self)@, old(dest)@.len()),
    {
        let ghost start = self@;
        let n = dest.len();
        let mut i: usize = 0;
        while i < n
            invariant
                n == dest@.len(),
                i <= n,
                self@ == xorshift8_nth(start, i as nat),
                forall|j: int|
                    0 <= j < i ==> #[trigger] dest@[j] == xorshift8_nth(start, (j + 1) as nat),
            decreases n - i,
        {
            dest[i] = self.next_u8();
            i += 1;
        }
    }

    /// Returns the generator whose state is the given byte, or the default
    /// generator if that byte is `0`.
    pub fn from_seed(seed: [u8; 1]) -> (r: Self)
        ensures
            r@ == if seed@[0] == 0 {
                XORSHIFT8_DEFAULT_SEED
            } else {
                seed@[0]
            },
    {
        if seed[0] == 0 {
            Self::new_unchecked(XORSHIFT8_DEFAULT_SEED)
        } else {
            Self::new_unchecked(seed[0])
        }
    }
}

/// A version of [`XorShift8`] that allows customizing the shift values.
///
/// It has an 8-bit state, which is never zero, and generates 8-bit numbers.
/// Its view is that state. The shifts must each be within `1..=7`.
#[derive(Clone, Copy, Debug, PartialEq, Eq)]
pub struct XorShift8Custom<const SH1: usize, const SH2: usize, const SH3: usize>(u8);

impl<const SH1: usize, const SH2: usize, const SH3: usize> View for XorShift8Custom<
    SH1,
    SH2,
    SH3,
> {
    type V = u8;

    closed spec fn view(&self) -> u8 {
        self.0
    }
}

impl<const SH1: usize, const SH2: usize, const SH3: usize> Default for XorShift8Custom<
    SH1,
    SH2,
    SH3,
> {
    /// Returns the generator seeded with [`XORSHIFT8_DEFAULT_SEED`].
    fn default() -> (r: Self)
        ensures
            r@ == XORSHIFT8_DEFAULT_SEED,
    {
        Self(XORSHIFT8_DEFAULT_SEED)
    }
}

impl<const SH1: usize, const SH2: usize, const SH3: usize> XorShift8Custom<SH1, SH2, SH3> {
    #[verifier::type_invariant]
    spec fn nonzero(self) -> bool {
        self.0 != 0
    }

    /// Whether the shifts of this type are all within `1..=7`.
    pub open spec fn valid_shifts() -> bool {
        valid_shifts8(SH1, SH2, SH3)
    }

    /// One step of this type's recurrence.
    pub open spec fn step(x: u8) -> u8 {
        xorshift8_with(x, SH1, SH2, SH3)
    }

    /// The generator one step ahead of `self`.
    pub closed spec fn peek(self) -> Self {
        XorShift8Custom(xorshift8_with(self.0, SH1, SH2, SH3))
    }

    /// Returns a seeded `XorShift8Custom` generator from the given 8-bit seed.
    ///
    /// Returns `None` if the seed is `0`.
    pub fn new(seed: u8) -> (r: Option<Self>)
        requires
            Self::valid_shifts(),
        ensures
            seed == 0 <==> r is None,
            r matches Some(g) ==> g@ == seed,
    {
        if seed == 0 {
            None
        } else {
            Some(Self(seed))
        }
    }

    /// Returns a seeded `XorShift8Custom` generator from the given 8-bit
    /// seed, which must not be `0`.
    pub fn new_unchecked(seed: u8) -> (r: Self)
        requires
            Self::valid_shifts(),
            seed != 0,
        ensures
            r@ == seed,
    {
        Self(seed)
    }

    /// Returns the current random `u8`.
    pub fn current_u8(&self) -> (r: u8)
        ensures
            r == self@,
            r != 0,
    {
        proof {
            use_type_invariant(self);
        }
        self.0
    }

    /// Advances the state by one step and returns the next random `u8`.
    pub fn next_u8(&mut self) -> (r: u8)
        requires
            Self::valid_shifts(),
        ensures
            *final(self) == old(self).peek(),
            final(self)@ == Self::step(old(self)@),
            r == final(self)@,
            r != 0,
    {
        proof {
            use_type_invariant(&*self);
            lemma_xorshift8_with_zero(self.0, SH1, SH2, SH3);
        }
        let mut x: u8 = self.0;
        x ^= x << SH1;
        x ^= x >> SH2;
        x ^= x << SH3;
        self.0 = x;
        x
    }

    /// Returns a copy of the next new random state, leaving `self` as it is.
    pub fn next_new(&self) -> (r: Self)
        requires
            Self::valid_shifts(),
        ensures
            r == self.peek(),
            r@ == Self::step(self@),
    {
        proof {
            use_type_invariant(self);
            lemma_xorshift8_with_zero(self.0, SH1, SH2, SH3);
        }
        let mut x: u8 = self.0;
        x ^= x << SH1;
        x ^= x >> SH2;
        x ^= x << SH3;
        Self(x)
    }

    /// Two generators in the same state are equal, and so are all the numbers
    /// they go on to produce.
    pub proof fn lemma_deterministic(self, other: Self, n: nat)
        requires
            self@ == other@,
        ensures
            self == other,
            Self::outputs(self@, n) == Self::outputs(other@, n),
            Self::nth(self@, n) == Self::nth(other@, n),
    {
    }

    /// Peeking gives the generator that advancing leads to: its state is one
    /// step ahead, and with valid shifts zero only if the state of `self` is.
    pub proof fn lemma_peek(self)
        ensures
            self.peek()@ == Self::step(self@),
            Self::valid_shifts() ==> (self@ != 0 <==> self.peek()@ != 0),
    {
        if Self::valid_shifts() {
            lemma_xorshift8_with_zero(self@, SH1, SH2, SH3);
        }
    }
}

/// # Wider outputs, byte buffers and byte seeds
impl<const SH1: usize, const SH2: usize, const SH3: usize> XorShift8Custom<SH1, SH2, SH3> {
    /// The state reached from `x` after `n` steps of this type's recurrence.
    pub open spec fn nth(x: u8, n: nat) -> u8 {
        xorshift8_with_nth(x, SH1, SH2, SH3, n)
    }

    /// The first `n` numbers produced from the state `x`.
    pub open spec fn outputs(x: u8, n: nat) -> Seq<u8> {
        xorshift8_with_outputs(x, SH1, SH2, SH3, n)
    }

    /// Returns the next 4 × random `u8` combined as a single `u32`, the first
    /// one in the lowest byte.
    pub fn next_u32(&mut self) -> (r: u32)
        requires
            Self::valid_shifts(),
        ensures
            final(self)@ == Self::nth(old(self)@, 4),
            r == join_u32_u8(Self::outputs(old(self)@, 4)),
    {
        let a = self.next_u8();
        let b = self.next_u8();
        let c = self.next_u8();
        let d = self.next_u8();
        proof {
            reveal_with_fuel(xorshift8_with_nth, 5);
        }
        u32_from_u8_le([a, b, c, d])
    }

    /// Returns the next 8 × random `u8` combined as a single `u64`, the first
    /// one in the lowest byte.
    pub fn next_u64(&mut self) -> (r: u64)
        requires
            Self::valid_shifts(),
        ensures
            final(self)@ == Self::nth(old(self)@, 8),
            r == join_u64_u8(Self::outputs(old(self)@, 8)),
    {
        let a = self.next_u8();
        let b = self.next_u8();
        let c = self.next_u8();
        let d = self.next_u8();
        let e = self.next_u8();
        let f = self.next_u8();
        let g = self.next_u8();
        let h = self.next_u8();
        proof {
            reveal_with_fuel(xorshift8_with_nth, 9);
        }
        u64_from_u8_le([a, b, c, d, e, f, g, h])
    }

    /// Fills `dest` with the next random numbers, one for each byte.
    pub fn fill_bytes(&mut self, dest: &mut [u8])
        requires
            Self::valid_shifts(),
        ensures
            final(self)@ == Self::nth(old(self)@, old(dest)@.len()),
            final(dest)@ == Self::outputs(old(self)@, old(dest)@.len()),
    {
        let ghost start = self@;
        let n = dest.len();
        let mut i: usize = 0;
        while i < n
            invariant
                Self::valid_shifts(),
                n == dest@.len(),
                i <= n,
                self@ == Self::nth(start, i as nat),
                forall|j: int|
                    0 <= j < i ==> #[trigger] dest@[j] == Self::nth(start, (j + 1) as nat),
            decreases n - i,
        {
            dest[i] = self.next_u8();
            i += 1;
        }
    }

    /// Returns the generator whose state is the given byte, or the default
    /// generator if that byte is `0`.
    pub fn from_seed(seed: [u8; 1]) -> (r: Self)
        requires
            Self::valid_shifts(),
        ensures
            r@ == if seed@[0] == 0 {
                XORSHIFT8_DEFAULT_SEED
            } else {
                seed@[0]
            },
    {
        if seed[0] == 0 {
            Self::new_unchecked(XORSHIFT8_DEFAULT_SEED)
        } else {
            Self::new_unchecked(seed[0])
        }
    }
}

} // verus!
