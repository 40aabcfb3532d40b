//! The multiply-by-13-add-1 generator.

use vstd::prelude::*;
use crate::endian::{join_u32_u8, join_u64_u8};
use devela::convert::{u32_from_u8_le, u64_from_u8_le};

verus! {

/// One step of the recurrence: thirteen times the state plus one, wrapping
/// around at 256.
pub open spec fn mult13p1(n: u8) -> u8 {
    ((13 * n + 1) % 256) as u8
}

/// The state reached from `n` after `k` steps.
pub open spec fn mult13p1_nth(n: u8, k: nat) -> u8
    decreases k,
{
    if k == 0 {
        n
    } else {
        mult13p1(mult13p1_nth(n, (k - 1) as nat))
    }
}

/// The first `k` numbers produced from the state `n`.
pub open spec fn mult13p1_outputs(n: u8, k: nat) -> Seq<u8> {
    Seq::new(k, |i: int| mult13p1_nth(n, (i + 1) as nat))
}

/// The seed of the default generator.
pub const MULT13P1_DEFAULT_SEED: u8 = 0xDE;

/// Thirteen times `n` is `n` plus `n` shifted by two and by three places,
/// since 13 = 1 + 4 + 8.
proof fn lemma_shift_sum(n: u8)
    ensures
        (n + (n << 2) + (n << 3) + 1) % 256 == (13 * n + 1) % 256,
{
    assert((n + (n << 2) + (n << 3) + 1) % 256 == (13 * n + 1) % 256) by (bit_vector);
}

/// The step is one-to-one: two states that step to the same state are the
/// same, so every state lies on a cycle.
pub proof fn lemma_mult13p1_injective(a: u8, b: u8)
    requires
        mult13p1(a) == mult13p1(b),
    ensures
        a == b,
{
    assert((13 * a + 1) % 256 == (13 * b + 1) % 256 ==> a == b) by (bit_vector);
}

/// No state is its own successor.
pub proof fn lemma_mult13p1_moves(n: u8)
    ensures
        mult13p1(n) != n,
{
}

/// A weak 8-bit pseudo-random number generator from 1977.
///
/// It multiplies the previous number by 13 and adds 1, doing the
/// multiplication by shifts. Every state is allowed, zero too. Its view is
/// its 8-bit state.
#[derive(Clone, Copy, Debug, PartialEq, Eq)]
pub struct Mult13P1 {
    state: u8,
}

impl View for Mult13P1 {
    type V = u8;

    closed spec fn view(&self) -> u8 {
        self.state
    }
}

impl Default for Mult13P1 {
    /// Returns the generator seeded with [`MULT13P1_DEFAULT_SEED`].
    fn default() -> (r: Self)
        ensures
            r@ == MULT13P1_DEFAULT_SEED,
    {
        Self::new(MULT13P1_DEFAULT_SEED)
    }
}

impl Mult13P1 {
    /// The generator one step ahead of `self`.
    pub closed spec fn peek(self) -> Self {
        Mult13P1 { state: mult13p1(self.state) }
    }

    /// Returns a seeded `Mult13P1` generator from the given 8-bit seed.
    pub fn new(seed: u8) -> (r: Self)
        ensures
            r@ == seed,
    {
        Self { state: seed }
    }

    /// Returns the current random `u8`.
    pub fn current_u8(&self) -> (r: u8)
        ensures
            r == self@,
    {
        self.state
    }

    /// Advances the state by one step and returns the next random `u8`.
    pub fn next_u8(&mut self) -> (r: u8)
        ensures
            *final(self) == old(self).peek(),
            final(self)@ == mult13p1(old(self)@),
            r == final(self)@,
    {
        let n = self.state;
        let n_times_2_pow_2 = n << 2;
        let n_times_2_pow_3 = n << 3;
        proof {
            lemma_shift_sum(n);
        }
        // 13*n = n + n*2^2 + n*2^3
        self.state = n.wrapping_add(n_times_2_pow_2).wrapping_add(n_times_2_pow_3).wrapping_add(1);
        self.state
    }

    /// Returns a copy of the next new random state, leaving `self` as it is.
    pub fn next_new(&self) -> (r: Self)
        ensures
            r == self.peek(),
            r@ == mult13p1(self@),
    {
        let n = self.state;
        let n_times_2_pow_2 = n << 2;
        let n_times_2_pow_3 = n << 3;
        proof {
            lemma_shift_sum(n);
        }
        // 13*n = n + n*2^2 + n*2^3
        let state = n.wrapping_add(n_times_2_pow_2).wrapping_add(n_times_2_pow_3).wrapping_add(
            1,
        );
        Self { state }
    }

    /// Two generators in the same state are equal, and so are all the numbers
    /// they go on to produce.
    pub proof fn lemma_deterministic(self, other: Self, k: nat)
        requires
            self@ == other@,
        ensures
            self == other,
            mult13p1_outputs(self@, k) == mult13p1_outputs(other@, k),
            mult13p1_nth(self@, k) == mult13p1_nth(other@, k),
    {
    }

    /// Peeking gives the generator that advancing leads to: its state is one
    /// step ahead. No state is its own successor.
    pub proof fn lemma_peek(self)
        ensures
            self.peek()@ == mult13p1(self@),
            self.peek()@ != self@,
    {
    }
}

/// # Extra constructors
impl Mult13P1 {
    /// Returns a seeded `Mult13P1` generator from the given 8-bit seed.
    ///
    /// This is an alias of [`new`][Self::new].
    pub fn new1_u8(seed: u8) -> (r: Self)
        ensures
            r@ == seed,
    {
        Self::new(seed)
    }
}

/// # Wider outputs, byte buffers and byte seeds
impl Mult13P1 {
    /// Returns the next 4 × random `u8` combined as a single `u32`, the first
    /// one in the lowest byte.
    pub fn next_u32(&mut self) -> (r: u32)
        ensures
            final(self)@ == mult13p1_nth(old(self)@, 4),
            r == join_u32_u8(mult13p1_outputs(old(self)@, 4)),
    {
        let a = self.next_u8();
        let b = self.next_u8();
        let c = self.next_u8();
        let d = self.next_u8();
        proof {
            reveal_with_fuel(mult13p1_nth, 5);
        }
        u32_from_u8_le([a, b, c, d])
    }

    /// Returns the next 8 × random `u8` combined as a single `u64`, the first
    /// one in the lowest byte.
    pub fn next_u64(&mut self) -> (r: u64)
        ensures
            final(self)@ == mult13p1_nth(old(self)@, 8),
            r == join_u64_u8(mult13p1_outputs(old(self)@, 8)),
    {
        let a = self.next_u8();
        let b = self.next_u8();
        let c = self.next_u8();
        let d = self.next_u8();
        let e = self.next_u8();
        let f = self.next_u8();
        let g = self.next_u8();
        let h = self.next_u8();
        proof {
            reveal_with_fuel(mult13p1_nth, 9);
        }
        u64_from_u8_le([a, b, c, d, e, f, g, h])
    }

    /// Fills `dest` with the next random numbers, one for each byte.
    pub fn fill_bytes(&mut self, dest: &mut [u8])
        ensures
            final(self)@ == mult13p1_nth(old(self)@, old(dest)@.len()),
            final(dest)@ == mult13p1_outputs(old(self)@, old(dest)@.len()),
    {
        let ghost start = self@;
        let n = dest.len();
        let mut i: usize = 0;
        while i < n
            invariant
                n == dest@.len(),
                i <= n,
                self@ == mult13p1_nth(start, i as nat),
                forall|j: int| 0 <= j < i ==> #[trigger] dest@[j] == mult13p1_nth(start, (j + 1) as nat),
            decreases n - i,
        {
            dest[i] = self.next_u8();
            i += 1;
        }
    }

    /// Returns the generator whose state is the given byte.
    pub fn from_seed(seed: [u8; 1]) -> (r: Self)
        ensures
            r@ == seed@[0],
    {
        Self::new(seed[0])
    }
}

} // verus!
