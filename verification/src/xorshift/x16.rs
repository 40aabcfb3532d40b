//! The 16-bit XorShift generator.

use vstd::prelude::*;
use crate::endian::{join_u16_u8, join_u32_u16, join_u64_u16, split_u16_u8};
use devela::convert::{u16_from_u8_le, u16_into_u8_le, u32_from_u16_le, u64_from_u16_le};

verus! {

/// One step of the 16-bit XorShift recurrence with the shift triple (7, 9, 8).
pub open spec fn xorshift16(x: u16) -> u16 {
    let a = x ^ (x << 7);
    let b = a ^ (a >> 9);
    b ^ (b << 8)
}

/// The state reached from `x` after `n` steps.
pub open spec fn xorshift16_nth(x: u16, n: nat) -> u16
    decreases n,
{
    if n == 0 {
        x
    } else {
        xorshift16(xorshift16_nth(x, (n - 1) as nat))
    }
}

/// The first `n` numbers produced from the state `x`.
pub open spec fn xorshift16_outputs(x: u16, n: nat) -> Seq<u16> {
    Seq::new(n, |i: int| xorshift16_nth(x, (i + 1) as nat))
}

/// The first `n` bytes of the numbers produced from the state `x`, each
/// number giving its 2 bytes in little-endian order.
pub open spec fn xorshift16_bytes(x: u16, n: nat) -> Seq<u8> {
    Seq::new(n, |i: int| split_u16_u8(xorshift16_nth(x, (i / 2 + 1) as nat))[i % 2])
}

/// The seed of the default generator.
pub const XORSHIFT16_DEFAULT_SEED: u16 = 0xDEFA;

proof fn bits_xorshift16(x: u16, y: u16)
    by (bit_vector)
    ensures
        xorshift16(x) == 0 <==> x == 0,
        xorshift16(x) == xorshift16(y) ==> x == y,
{
}

/// Zero is a fixed point of the step, and no other state steps to zero.
pub proof fn lemma_xorshift16_zero(x: u16)
    ensures
        xorshift16(x) == 0 <==> x == 0,
{
    bits_xorshift16(x, x);
}

/// The step is one-to-one: two states that step to the same state are the
/// same, so every state lies on a cycle.
pub proof fn lemma_xorshift16_injective(x: u16, y: u16)
    requires
        xorshift16(x) == xorshift16(y),
    ensures
        x == y,
{
    bits_xorshift16(x, y);
}

/// No number of steps leads from a non-zero state to zero.
pub proof fn lemma_xorshift16_nth_nonzero(x: u16, n: nat)
    requires
        x != 0,
    ensures
        xorshift16_nth(x, n) != 0,
    decreases n,
{
    if n > 0 {
        lemma_xorshift16_nth_nonzero(x, (n - 1) as nat);
        lemma_xorshift16_zero(xorshift16_nth(x, (n - 1) as nat));
    }
}

/// The `XorShift16` pseudo-random number generator.
///
/// It has a 16-bit state, which is never zero, and generates 16-bit numbers.
/// Its view is that state.
#[derive(Clone, Copy, Debug, PartialEq, Eq)]
pub struct XorShift16(u16);

impl View for XorShift16 {
    type V = u16;

    closed spec fn view(&self) -> u16 {
        self.0
    }
}

impl Default for XorShift16 {
    /// Returns the generator seeded with [`XORSHIFT16_DEFAULT_SEED`].
    fn default() -> (r: Self)
        ensures
            r@ == XORSHIFT16_DEFAULT_SEED,
    {
        Self::new_unchecked(XORSHIFT16_DEFAULT_SEED)
    }
}

impl XorShift16 {
    #[verifier::type_invariant]
    spec fn nonzero(self) -> bool {
        self.0 != 0
    }

    /// The generator one step ahead of `self`.
    pub closed spec fn peek(self) -> Self {
        XorShift16(xorshift16(self.0))
    }

    /// Returns a seeded `XorShift16` generator from the given 16-bit seed.
    ///
    /// Returns `None` if the seed is `0`.
    pub fn new(seed: u16) -> (r: Option<Self>)
        ensures
            seed == 0 <==> r is None,
            r matches Some(g) ==> g@ == seed,
    {
        if seed == 0 {
            None
        } else {
            Some(Self(seed))
        }
    }

    /// Returns a seeded `XorShift16` generator from the given 16-bit seed,
    /// which must not be `0`.
    pub fn new_unchecked(seed: u16) -> (r: Self)
        requires
            seed != 0,
        ensures
            r@ == seed,
    {
        Self(seed)
    }

    /// Returns the current random `u16`.
    pub fn current_u16(&self) -> (r: u16)
        ensures
            r == self@,
            r != 0,
    {
        proof {
            use_type_invariant(self);
        }
        self.0
    }

    /// Advances the state by one step and returns the next random `u16`.
    pub fn next_u16(&mut self) -> (r: u16)
        ensures
            *final(self) == old(self).peek(),
            final(self)@ == xorshift16(old(self)@),
            r == final(self)@,
            r != 0,
    {
        proof {
            use_type_invariant(&*self);
            lemma_xorshift16_zero(self.0);
        }
        let mut x: u16 = self.0;
        x ^= x << 7;
        x ^= x >> 9;
        x ^= x << 8;
        self.0 = x;
        x
    }

    /// Returns a copy of the next new random state, leaving `self` as it is.
    pub fn next_new(&self) -> (r: Self)
        ensures
            r == self.peek(),
            r@ == xorshift16(self@),
    {
        proof {
            use_type_invariant(self);
            lemma_xorshift16_zero(self.0);
        }
        let mut x: u16 = self.0;
        x ^= x << 7;
        x ^= x >> 9;
        x ^= x << 8;
        Self(x)
    }

    /// Two generators in the same state are equal, and so are all the numbers
    /// they go on to produce.
    pub proof fn lemma_deterministic(self, other: Self, n: nat)
        requires
            self@ == other@,
        ensures
            self == other,
            xorshift16_outputs(self@, n) == xorshift16_outputs(other@, n),
            xorshift16_nth(self@, n) == xorshift16_nth(other@, n),
    {
    }

    /// Peeking gives the generator that advancing leads to: its state is one
    /// step ahead, and zero only if the state of `self` is.
    pub proof fn lemma_peek(self)
        ensures
            self.peek()@ == xorshift16(self@),
            self@ != 0 <==> self.peek()@ != 0,
    {
        lemma_xorshift16_zero(self@);
    }
}

/// # Extra constructors
impl XorShift16 {
    /// Returns a seeded `XorShift16` generator from the given 16-bit seed.
    ///
    /// This is an alias of [`new`][Self::new].
    pub fn new1_u16(seed: u16) -> (r: Option<Self>)
        ensures
            seed == 0 <==> r is None,
            r matches Some(g) ==> g@ == seed,
    {
        Self::new(seed)
    }

    /// Returns a seeded `XorShift16` generator from the given 2 × 8-bit seeds,
    /// joined in little-endian order.
    ///
    /// Returns `None` if both seeds are `0`.
    pub fn new2_u8(seeds: [u8; 2]) -> (r: Option<Self>)
        ensures
            join_u16_u8(seeds@) == 0 <==> r is None,
            r matches Some(g) ==> g@ == join_u16_u8(seeds@),
    {
        Self::new(u16_from_u8_le(seeds))
    }
}

/// # Wider outputs, byte buffers and byte seeds
impl XorShift16 {
    /// Returns the next 2 × random `u16` combined as a single `u32`, the
    /// first one in the low half.
    pub fn next_u32(&mut self) -> (r: u32)
        ensures
            final(self)@ == xorshift16_nth(old(self)@, 2),
            r == join_u32_u16(xorshift16_outputs(old(self)@, 2)),
    {
        let a = self.next_u16();
        let b = self.next_u16();
        proof {
            reveal_with_fuel(xorshift16_nth, 3);
        }
        u32_from_u16_le([a, b])
    }

    /// Returns the next 4 × random `u16` combined as a single `u64`, the
    /// first one in the lowest place.
    pub fn next_u64(&mut self) -> (r: u64)
        ensures
            final(self)@ == xorshift16_nth(old(self)@, 4),
            r == join_u64_u16(xorshift16_outputs(old(self)@, 4)),
    {
        let a = self.next_u16();
        let b = self.next_u16();
        let c = self.next_u16();
        let d = self.next_u16();
        proof {
            reveal_with_fuel(xorshift16_nth, 5);
        }
        u64_from_u16_le([a, b, c, d])
    }

    /// Fills `dest` with the little-endian bytes of the next random numbers.
    ///
    /// Every two bytes take one number. Where the length is odd, the last
    /// byte is the low byte of one more number, whose high byte is dropped.
    pub fn fill_bytes(&mut self, dest: &mut [u8])
        ensures
            final(self)@ == xorshift16_nth(old(self)@, ((old(dest)@.len() + 1) / 2) as nat),
            final(dest)@ == xorshift16_bytes(old(self)@, old(dest)@.len()),
    {
        let ghost start = self@;
        let n = dest.len();
        let mut i: usize = 0;
        while i < n
            invariant
                n == dest@.len(),
                i <= n,
                i % 2 == 0 || i == n,
                self@ == xorshift16_nth(start, ((i + 1) / 2) as nat),
                forall|j: int|
                    0 <= j < i ==> #[trigger] dest@[j] == split_u16_u8(
                        xorshift16_nth(start, (j / 2 + 1) as nat),
                    )[j % 2],
            decreases n - i,
        {
            let random_u16 = self.next_u16();
            let bytes = u16_into_u8_le(random_u16);
            let remaining = n - i;
            if remaining >= 2 {
                dest[i] = bytes[0];
                dest[i + 1] = bytes[1];
                i += 2;
            } else {
                dest[i] = bytes[0];
                i += 1;
            }
        }
    }

    /// Returns the generator whose state is the given two bytes joined in
    /// little-endian order, or the default generator if both bytes are `0`.
    pub fn from_seed(seed: [u8; 2]) -> (r: Self)
        ensures
            r@ == if join_u16_u8(seed@) == 0 {
                XORSHIFT16_DEFAULT_SEED
            } else {
                join_u16_u8(seed@)
            },
    {
        let x = u16_from_u8_le(seed);
        if x == 0 {
            Self::new_unchecked(XORSHIFT16_DEFAULT_SEED)
        } else {
            Self::new_unchecked(x)
        }
    }
}

} // verus!
