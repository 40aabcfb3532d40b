//! The 32-bit XorShift generator.

use vstd::prelude::*;
use crate::endian::{join_u32_u16, join_u32_u8, join_u64_u32, split_u32_u8};
use devela::convert::{u32_from_u16_le, u32_from_u8_le, u32_into_u8_le, u64_from_u32_le};

verus! {

/// One step of the 32-bit XorShift recurrence with the shift triple (13, 17, 5).
pub open spec fn xorshift32(x: u32) -> u32 {
    let a = x ^ (x << 13);
    let b = a ^ (a >> 17);
    b ^ (b << 5)
}

/// The state reached from `x` after `n` steps.
pub open spec fn xorshift32_nth(x: u32, n: nat) -> u32
    decreases n,
{
    if n == 0 {
        x
    } else {
        xorshift32(xorshift32_nth(x, (n - 1) as nat))
    }
}

/// The first `n` numbers produced from the state `x`.
pub open spec fn xorshift32_outputs(x: u32, n: nat) -> Seq<u32> {
    Seq::new(n, |i: int| xorshift32_nth(x, (i + 1) as nat))
}

/// The first `n` bytes of the numbers produced from the state `x`, each
/// number giving its 4 bytes in little-endian order.
pub open spec fn xorshift32_bytes(x: u32, n: nat) -> Seq<u8> {
    Seq::new(n, |i: int| split_u32_u8(xorshift32_nth(x, (i / 4 + 1) as nat))[i % 4])
}

/// The seed of the default generator.
pub const XORSHIFT32_DEFAULT_SEED: u32 = 0xDEFA_0017;

proof fn bits_xorshift32(x: u32, y: u32)
    by (bit_vector)
    ensures
        xorshift32(x) == 0 <==> x == 0,
        xorshift32(x) == xorshift32(y) ==> x == y,
{
}

/// Zero is a fixed point of the step, and no other state steps to zero.
pub proof fn lemma_xorshift32_zero(x: u32)
    ensures
        xorshift32(x) == 0 <==> x == 0,
{
    bits_xorshift32(x, x);
}

/// The step is one-to-one: two states that step to the same state are the
/// same, so every state lies on a cycle.
pub proof fn lemma_xorshift32_injective(x: u32, y: u32)
    requires
        xorshift32(x) == xorshift32(y),
    ensures
        x == y,
{
    bits_xorshift32(x, y);
}

/// No number of steps leads from a non-zero state to zero.
pub proof fn lemma_xorshift32_nth_nonzero(x: u32, n: nat)
    requires
        x != 0,
    ensures
        xorshift32_nth(x, n) != 0,
    decreases n,
{
    if n > 0 {
        lemma_xorshift32_nth_nonzero(x, (n - 1) as nat);
        lemma_xorshift32_zero(xorshift32_nth(x, (n - 1) as nat));
    }
}

/// The `XorShift32` pseudo-random number generator.
///
/// It has a 32-bit state, which is never zero, and generates 32-bit numbers.
/// Its view is that state.
#[derive(Clone, Copy, Debug, PartialEq, Eq)]
pub struct XorShift32(u32);

impl View for XorShift32 {
    type V = u32;

    closed spec fn view(&self) -> u32 {
        self.0
    }
}

impl Default for XorShift32 {
    /// Returns the generator seeded with [`XORSHIFT32_DEFAULT_SEED`].
    fn default() -> (r: Self)
        ensures
            r@ == XORSHIFT32_DEFAULT_SEED,
    {
        Self::new_unchecked(XORSHIFT32_DEFAULT_SEED)
    }
}

impl XorShift32 {
    #[verifier::type_invariant]
    spec fn nonzero(self) -> bool {
        self.0 != 0
    }

    /// The generator one step ahead of `self`.
    pub closed spec fn peek(self) -> Self {
        XorShift32(xorshift32(self.0))
    }

    /// Returns a seeded `XorShift32` generator from the given 32-bit seed.
    ///
    /// Returns `None` if the seed is `0`.
    pub fn new(seed: u32) -> (r: Option<Self>)
        ensures
            seed == 0 <==> r is None,
            r matches Some(g) ==> g@ == seed,
    {
        if seed == 0 {
            None
        } else {
            Some(Self(seed))
        }
    }

    /// Returns a seeded `XorShift32` generator from the given 32-bit seed,
    /// which must not be `0`.
    pub fn new_unchecked(seed: u32) -> (r: Self)
        requires
            seed != 0,
        ensures
            r@ == seed,
    {
        Self(seed)
    }

    /// Returns the current random `u32`.
    pub fn current_u32(&self) -> (r: u32)
        ensures
            r == self@,
            r != 0,
    {
        proof {
            use_type_invariant(self);
        }
        self.0
    }

    /// Advances the state by one step and returns the next random `u32`.
    pub fn next_u32(&mut self) -> (r: u32)
        ensures
            *final(self) == old(self).peek(),
            final(self)@ == xorshift32(old(self)@),
            r == final(self)@,
            r != 0,
    {
        proof {
            use_type_invariant(&*self);
            lemma_xorshift32_zero(self.0);
        }
        let mut x: u32 = self.0;
        x ^= x << 13;
        x ^= x >> 17;
        x ^= x << 5;
        self.0 = x;
        x
    }

    /// Returns a copy of the next new random state, leaving `self` as it is.
    pub fn next_new(&self) -> (r: Self)
        ensures
            r == self.peek(),
            r@ == xorshift32(self@),
    {
        proof {
            use_type_invariant(self);
            lemma_xorshift32_zero(self.0);
        }
        let mut x: u32 = self.0;
        x ^= x << 13;
        x ^= x >> 17;
        x ^= x << 5;
        Self(x)
    }

    /// Two generators in the same state are equal, and so are all the numbers
    /// they go on to produce.
    pub proof fn lemma_deterministic(self, other: Self, n: nat)
        requires
            self@ == other@,
        ensures
            self == other,
            xorshift32_outputs(self@, n) == xorshift32_outputs(other@, n),
            xorshift32_nth(self@, n) == xorshift32_nth(other@, n),
    {
    }

    /// Peeking gives the generator that advancing leads to: its state is one
    /// step ahead, and zero only if the state of `self` is.
    pub proof fn lemma_peek(self)
        ensures
            self.peek()@ == xorshift32(self@),
            self@ != 0 <==> self.peek()@ != 0,
    {
        lemma_xorshift32_zero(self@);
    }
}

/// # Extra constructors
impl XorShift32 {
    /// Returns a seeded `XorShift32` generator from the given 32-bit seed.
    ///
    /// This is an alias of [`new`][Self::new].
    pub fn new1_32(seed: u32) -> (r: Option<Self>)
        ensures
            seed == 0 <==> r is None,
            r matches Some(g) ==> g@ == seed,
    {
        Self::new(seed)
    }

    /// Returns a seeded `XorShift32` generator from the given 2 × 16-bit
    /// seeds, joined in little-endian order.
    ///
    /// Returns `None` if both seeds are `0`.
    pub fn new2_16(seeds: [u16; 2]) -> (r: Option<Self>)
        ensures
            join_u32_u16(seeds@) == 0 <==> r is None,
            r matches Some(g) ==> g@ == join_u32_u16(seeds@),
    {
        Self::new(u32_from_u16_le(seeds))
    }

    /// Returns a seeded `XorShift32` generator from the given 4 × 8-bit
    /// seeds, joined in little-endian order.
    ///
    /// Returns `None` if all seeds are `0`.
    pub fn new4_8(seeds: [u8; 4]) -> (r: Option<Self>)
        ensures
            join_u32_u8(seeds@) == 0 <==> r is None,
            r matches Some(g) ==> g@ == join_u32_u8(seeds@),
    {
        Self::new(u32_from_u8_le(seeds))
    }
}

/// # Wider outputs, byte buffers and byte seeds
impl XorShift32 {
    /// Returns the next 2 × random `u32` combined as a single `u64`, the
    /// first one in the low half.
    pub fn next_u64(&mut self) -> (r: u64)
        ensures
            final(self)@ == xorshift32_nth(old(self)@, 2),
            r == join_u64_u32(xorshift32_outputs(old(self)@, 2)),
    {
        let a = self.next_u32();
        let b = self.next_u32();
        proof {
            reveal_with_fuel(xorshift32_nth, 3);
        }
        u64_from_u32_le([a, b])
    }

    /// Fills `dest` with the little-endian bytes of the next random numbers.
    ///
    /// Every four bytes take one number. Where the length is no multiple of
    /// four, the last bytes are the low bytes of one more number, whose
    /// higher bytes are dropped.
    pub fn fill_bytes(&mut self, dest: &mut [u8])
        ensures
            final(self)@ == xorshift32_nth(old(self)@, ((old(dest)@.len() + 3) / 4) as nat),
            final(dest)@ == xorshift32_bytes(old(self)@, old(dest)@.len()),
    {
        let ghost start = self@;
        let n = dest.len();
        let mut i: usize = 0;
        while i < n
            invariant
                n == dest@.len(),
                i <= n,
                i % 4 == 0 || i == n,
                self@ == xorshift32_nth(start, ((i + 3) / 4) as nat),
                forall|j: int|
                    0 <= j < i ==> #[trigger] dest@[j] == split_u32_u8(
                        xorshift32_nth(start, (j / 4 + 1) as nat),
                    )[j % 4],
            decreases n - i,
        {
            let random_u32 = self.next_u32();
            let bytes = u32_into_u8_le(random_u32);
            let remaining = n - i;
            let take: usize = if remaining >= 4 {
                4
            } else {
                remaining
            };
            let mut k: usize = 0;
            while k < take
                invariant
                    n == dest@.len(),
                    i + take <= n,
                    i % 4 == 0,
                    k <= take <= 4,
                    bytes@ == split_u32_u8(xorshift32_nth(start, (i / 4 + 1) as nat)),
                    forall|j: int|
                        0 <= j < i + k ==> #[trigger] dest@[j] == split_u32_u8(
                            xorshift32_nth(start, (j / 4 + 1) as nat),
                        )[j % 4],
                decreases take - k,
            {
                dest[i + k] = bytes[k];
                k += 1;
            }
            i += take;
        }
    }

    /// Returns the generator whose state is the given four bytes joined in
    /// little-endian order, or the default generator if all bytes are `0`.
    pub fn from_seed(seed: [u8; 4]) -> (r: Self)
        ensures
            r@ == if join_u32_u8(seed@) == 0 {
                XORSHIFT32_DEFAULT_SEED
            } else {
                join_u32_u8(seed@)
            },
    {
        let x = u32_from_u8_le(seed);
        if x == 0 {
            Self::new_unchecked(XORSHIFT32_DEFAULT_SEED)
        } else {
            Self::new_unchecked(x)
        }
    }
}

} // verus!
