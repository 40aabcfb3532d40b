//! The generators with 128 bits of state: `XorShift128` and `XorShift128+`.

use vstd::prelude::*;
use crate::endian::{
    join_u32_u16, join_u32_u8, join_u64_u16, join_u64_u32, join_u64_u8, lemma_join_u32_u16_zero,
    lemma_join_u32_u8_zero, lemma_join_u64_u16_zero, lemma_join_u64_u32_zero,
    lemma_join_u64_u8_zero, lemma_split_u128_u32_zero, lemma_split_u128_u64_zero,
    lemma_split_u64_u32_zero, split_u128_u32, split_u128_u64, split_u64_u32,
};
use devela::convert::{
    u128_into_u32_le, u128_into_u64_le, u32_from_u16_le, u32_from_u8_le, u64_from_u16_le,
    u64_from_u32_le, u64_from_u8_le, u64_into_u32_le,
};

verus! {

// ---------------------------------------------------------------------------
// XorShift128
// ---------------------------------------------------------------------------
/// One step of the `XorShift128` recurrence on the four words `s[0..4]`.
///
/// The words move up by one place, the last one leaving, and the new first
/// word mixes the old first and the old last.
pub open spec fn xorshift128(s: Seq<u32>) -> Seq<u32> {
    let t = s[3];
    let a = s[0] ^ (s[0] << 11);
    let b = a ^ (a >> 8);
    seq![b ^ t ^ (t >> 19), s[0], s[1], s[2]]
}

/// The number that `XorShift128` shows in the state `s`: its first word in
/// the high half, its second in the low half.
pub open spec fn xorshift128_output(s: Seq<u32>) -> u64 {
    ((s[0] as u64) << 32) | (s[1] as u64)
}

/// The state reached from `s` after `n` steps.
pub open spec fn xorshift128_nth(s: Seq<u32>, n: nat) -> Seq<u32>
    decreases n,
{
    if n == 0 {
        s
    } else {
        xorshift128(xorshift128_nth(s, (n - 1) as nat))
    }
}

/// The first `n` numbers produced from the state `s`.
pub open spec fn xorshift128_outputs(s: Seq<u32>, n: nat) -> Seq<u64> {
    Seq::new(n, |i: int| xorshift128_output(xorshift128_nth(s, (i + 1) as nat)))
}

/// Whether all four words are zero.
pub open spec fn all_zero4(s: Seq<u32>) -> bool {
    s[0] == 0 && s[1] == 0 && s[2] == 0 && s[3] == 0
}

proof fn bits_xorshift128(x: u32, t: u32, u: u32)
    by (bit_vector)
    ensures
        ({
            let a = x ^ (x << 11);
            let b = a ^ (a >> 8);
            &&& x == 0 ==> (b ^ t ^ (t >> 19) == 0 <==> t == 0)
            &&& b ^ t ^ (t >> 19) == b ^ u ^ (u >> 19) ==> t == u
        }),
{
}

/// The all-zero state is a fixed point of the step, and no other state steps
/// to it.
pub proof fn lemma_xorshift128_zero(s: Seq<u32>)
    ensures
        all_zero4(xorshift128(s)) <==> all_zero4(s),
        xorshift128(s).len() == 4,
{
    bits_xorshift128(s[0], s[3], s[3]);
}

/// The step is one-to-one: two states that step to the same state are the
/// same, so every state lies on a cycle.
pub proof fn lemma_xorshift128_injective(s: Seq<u32>, t: Seq<u32>)
    requires
        s.len() == 4,
        t.len() == 4,
        xorshift128(s) == xorshift128(t),
    ensures
        s == t,
{
    bits_xorshift128(s[0], s[3], t[3]);
}

/// No number of steps leads from a state with a non-zero word to the
/// all-zero state.
pub proof fn lemma_xorshift128_nth_nonzero(s: Seq<u32>, n: nat)
    requires
        !all_zero4(s),
    ensures
        !all_zero4(xorshift128_nth(s, n)),
    decreases n,
{
    if n > 0 {
        lemma_xorshift128_nth_nonzero(s, (n - 1) as nat);
        lemma_xorshift128_zero(xorshift128_nth(s, (n - 1) as nat));
    }
}

/// The `XorShift128` pseudo-random number generator.
///
/// It has a 128-bit state of four 32-bit words, never all zero, and
/// generates 64-bit numbers. Its view is the sequence of the four words.
#[derive(Clone, Copy, Debug, PartialEq, Eq)]
pub struct XorShift128([u32; 4]);

impl View for XorShift128 {
    type V = Seq<u32>;

    closed spec fn view(&self) -> Seq<u32> {
        self.0@
    }
}

impl XorShift128 {
    #[verifier::type_invariant]
    spec fn nonzero(self) -> bool {
        !all_zero4(self.0@)
    }

    /// The generator one step ahead of `self`.
    pub closed spec fn peek(self) -> Self {
        let n = xorshift128(self.0@);
        XorShift128([n[0], n[1], n[2], n[3]])
    }

    /// Returns a seeded `XorShift128` generator from the given 4 × 32-bit
    /// seeds.
    ///
    /// Returns `None` if all given seeds are `0`.
    pub fn new(seeds: [u32; 4]) -> (r: Option<Self>)
        ensures
            all_zero4(seeds@) <==> r is None,
            r matches Some(g) ==> g@ == seeds@,
    {
        if seeds[0] != 0 || seeds[1] != 0 || seeds[2] != 0 || seeds[3] != 0 {
            let g = Self([seeds[0], seeds[1], seeds[2], seeds[3]]);
            Some(g)
        } else {
            None
        }
    }

    /// Returns a seeded `XorShift128` generator from the given 4 × 32-bit
    /// seeds, which must not all be `0`.
    pub fn new_unchecked(seeds: [u32; 4]) -> (r: Self)
        requires
            !all_zero4(seeds@),
        ensures
            r@ == seeds@,
    {
        Self(seeds)
    }

    /// Returns the current random `u64`.
    pub fn current_u64(&self) -> (r: u64)
        ensures
            r == xorshift128_output(self@),
    {
        ((self.0[0] as u64) << 32) | (self.0[1] as u64)
    }

    /// Advances the state by one step and returns the next random `u64`.
    pub fn next_u64(&mut self) -> (r: u64)
        ensures
            *final(self) == old(self).peek(),
            final(self)@ == xorshift128(old(self)@),
            r == xorshift128_output(final(self)@),
            !all_zero4(final(self)@),
    {
        proof {
            use_type_invariant(&*self);
            lemma_xorshift128_zero(self.0@);
            self.lemma_peek();
        }
        let t = self.0[3];
        let mut s: u32 = self.0[0];
        s ^= s << 11;
        s ^= s >> 8;
        let next = [s ^ t ^ (t >> 19), self.0[0], self.0[1], self.0[2]];
        self.0 = next;
        ((self.0[0] as u64) << 32) | (self.0[1] as u64)
    }

    /// Returns a copy of the next new random state, leaving `self` as it is.
    pub fn next_new(&self) -> (r: Self)
        ensures
            r == self.peek(),
            r@ == xorshift128(self@),
    {
        proof {
            use_type_invariant(self);
            lemma_xorshift128_zero(self.0@);
            self.lemma_peek();
        }
        let t = self.0[3];
        let mut s: u32 = self.0[0];
        s ^= s << 11;
        s ^= s >> 8;
        let next = [s ^ t ^ (t >> 19), self.0[0], self.0[1], self.0[2]];
        Self(next)
    }

    /// The view of a generator has four words, and two generators with the
    /// same view are equal, as are all the numbers they go on to produce.
    pub proof fn lemma_deterministic(self, other: Self, n: nat)
        requires
            self@ == other@,
        ensures
            self@.len() == 4,
            self == other,
            xorshift128_outputs(self@, n) == xorshift128_outputs(other@, n),
            xorshift128_nth(self@, n) == xorshift128_nth(other@, n),
    {
        assert(self.0 =~= other.0);
    }

    /// Peeking gives the generator that advancing leads to: its state is one
    /// step ahead, and all zero only if the state of `self` is.
    pub proof fn lemma_peek(self)
        ensures
            self.peek()@ == xorshift128(self@),
            all_zero4(self@) <==> all_zero4(self.peek()@),
    {
        lemma_xorshift128_zero(self@);
    }
}

/// # Extra constructors
impl XorShift128 {
    /// Returns a seeded `XorShift128` generator from the given 128-bit seed,
    /// split in little-endian order.
    ///
    /// Returns `None` if the seed is `0`.
    pub fn new1_128(seed: u128) -> (r: Option<Self>)
        ensures
            seed == 0 <==> r is None,
            r matches Some(g) ==> g@ == split_u128_u32(seed),
    {
        proof {
            lemma_split_u128_u32_zero(seed);
        }
        Self::new(u128_into_u32_le(seed))
    }

    /// Returns a seeded `XorShift128` generator from the given 2 × 64-bit
    /// seeds, each split in little-endian order.
    ///
    /// Returns `None` if both seeds are `0`.
    pub fn new2_64(seeds: [u64; 2]) -> (r: Option<Self>)
        ensures
            seeds@[0] == 0 && seeds@[1] == 0 <==> r is None,
            r matches Some(g) ==> g@ == split_u64_u32(seeds@[0]) + split_u64_u32(seeds@[1]),
    {
        proof {
            lemma_split_u64_u32_zero(seeds@[0]);
            lemma_split_u64_u32_zero(seeds@[1]);
        }
        let lo = u64_into_u32_le(seeds[0]);
        let hi = u64_into_u32_le(seeds[1]);
        let words = [lo[0], lo[1], hi[0], hi[1]];
        Self::new(words)
    }

    /// Returns a seeded `XorShift128` generator from the given 4 × 32-bit
    /// seeds.
    ///
    /// This is an alias of [`new`][Self::new].
    pub fn new4_32(seeds: [u32; 4]) -> (r: Option<Self>)
        ensures
            all_zero4(seeds@) <==> r is None,
            r matches Some(g) ==> g@ == seeds@,
    {
        Self::new(seeds)
    }

    /// Returns a seeded `XorShift128` generator from the given 8 × 16-bit
    /// seeds, each pair joined in little-endian order.
    ///
    /// Returns `None` if all seeds are `0`.
    pub fn new8_16(seeds: [u16; 8]) -> (r: Option<Self>)
        ensures
            (forall|i: int| 0 <= i < 8 ==> seeds@[i] == 0) <==> r is None,
            r matches Some(g) ==> g@ == seq![
                join_u32_u16(seeds@.subrange(0, 2)),
                join_u32_u16(seeds@.subrange(2, 4)),
                join_u32_u16(seeds@.subrange(4, 6)),
                join_u32_u16(seeds@.subrange(6, 8)),
            ],
    {
        proof {
            lemma_join_u32_u16_zero(seeds@.subrange(0, 2));
            lemma_join_u32_u16_zero(seeds@.subrange(2, 4));
            lemma_join_u32_u16_zero(seeds@.subrange(4, 6));
            lemma_join_u32_u16_zero(seeds@.subrange(6, 8));
        }
        let words = [
            u32_from_u16_le([seeds[0], seeds[1]]),
            u32_from_u16_le([seeds[2], seeds[3]]),
            u32_from_u16_le([seeds[4], seeds[5]]),
            u32_from_u16_le([seeds[6], seeds[7]]),
        ];
        Self::new(words)
    }

    /// Returns a seeded `XorShift128` generator from the given 16 × 8-bit
    /// seeds, each four joined in little-endian order.
    ///
    /// Returns `None` if all seeds are `0`.
    pub fn new16_8(seeds: [u8; 16]) -> (r: Option<Self>)
        ensures
            (forall|i: int| 0 <= i < 16 ==> seeds@[i] == 0) <==> r is None,
            r matches Some(g) ==> g@ == seq![
                join_u32_u8(seeds@.subrange(0, 4)),
                join_u32_u8(seeds@.subrange(4, 8)),
                join_u32_u8(seeds@.subrange(8, 12)),
                join_u32_u8(seeds@.subrange(12, 16)),
            ],
    {
        proof {
            lemma_join_u32_u8_zero(seeds@.subrange(0, 4));
            lemma_join_u32_u8_zero(seeds@.subrange(4, 8));
            lemma_join_u32_u8_zero(seeds@.subrange(8, 12));
            lemma_join_u32_u8_zero(seeds@.subrange(12, 16));
        }
        let words = [
            u32_from_u8_le([seeds[0], seeds[1], seeds[2], seeds[3]]),
            u32_from_u8_le([seeds[4], seeds[5], seeds[6], seeds[7]]),
            u32_from_u8_le([seeds[8], seeds[9], seeds[10], seeds[11]]),
            u32_from_u8_le([seeds[12], seeds[13], seeds[14], seeds[15]]),
        ];
        Self::new(words)
    }

    /// Returns a seeded `XorShift128` generator from the given 2 × 64-bit
    /// seeds, each split in little-endian order.
    ///
    /// This is [`new2_64`][Self::new2_64] with the two seeds given apart.
    pub fn new2(seed1: u64, seed2: u64) -> (r: Option<Self>)
        ensures
            seed1 == 0 && seed2 == 0 <==> r is None,
            r matches Some(g) ==> g@ == split_u64_u32(seed1) + split_u64_u32(seed2),
    {
        Self::new2_64([seed1, seed2])
    }

    /// Returns a seeded `XorShift128` generator from the given 4 × 32-bit
    /// seeds.
    ///
    /// This is [`new`][Self::new] with the four seeds given apart.
    pub fn new4(seed1: u32, seed2: u32, seed3: u32, seed4: u32) -> (r: Option<Self>)
        ensures
            seed1 == 0 && seed2 == 0 && seed3 == 0 && seed4 == 0 <==> r is None,
            r matches Some(g) ==> g@ == seq![seed1, seed2, seed3, seed4],
    {
        let seeds = [seed1, seed2, seed3, seed4];
        Self::new(seeds)
    }
}

// ---------------------------------------------------------------------------
// XorShift128+
// ---------------------------------------------------------------------------
/// `x` with its bits rotated to the left by `k` places, for `0 < k < 64`.
pub open spec fn rotate_left64(x: u64, k: u32) -> u64 {
    (x << k) | (x >> ((64 - k) as u32))
}

/// One step of the `XorShift128+` recurrence on the two words `s[0], s[1]`.
pub open spec fn xorshift128p(s: Seq<u64>) -> Seq<u64> {
    let x = s[0] ^ s[1];
    seq![rotate_left64(s[1], 24) ^ x ^ (x << 16), rotate_left64(x, 37)]
}

/// The number that `XorShift128+` shows in the state `s`: the sum of its two
/// words, wrapping around at 2^64.
pub open spec fn xorshift128p_output(s: Seq<u64>) -> u64 {
    ((s[0] + s[1]) % 0x1_0000_0000_0000_0000) as u64
}

/// The state reached from `s` after `n` steps.
pub open spec fn xorshift128p_nth(s: Seq<u64>, n: nat) -> Seq<u64>
    decreases n,
{
    if n == 0 {
        s
    } else {
        xorshift128p(xorshift128p_nth(s, (n - 1) as nat))
    }
}

/// The first `n` numbers produced from the state `s`. Each one is the sum
/// of the words before the step that produces it.
pub open spec fn xorshift128p_outputs(s: Seq<u64>, n: nat) -> Seq<u64> {
    Seq::new(n, |i: int| xorshift128p_output(xorshift128p_nth(s, i as nat)))
}

/// Whether both words are zero.
pub open spec fn all_zero2(s: Seq<u64>) -> bool {
    s[0] == 0 && s[1] == 0
}

proof fn bits_xorshift128p(a: u64, b: u64, c: u64, d: u64)
    by (bit_vector)
    ensures
        ({
            let x = a ^ b;
            let y = c ^ d;
            &&& (rotate_left64(b, 24) ^ x ^ (x << 16)) == 0 && rotate_left64(x, 37) == 0 <==> a
                == 0 && b == 0
            &&& (rotate_left64(b, 24) ^ x ^ (x << 16)) == (rotate_left64(d, 24) ^ y ^ (y << 16))
                && rotate_left64(x, 37) == rotate_left64(y, 37) ==> a == c && b == d
        }),
{
}

/// The all-zero state is a fixed point of the step, and no other state steps
/// to it.
pub proof fn lemma_xorshift128p_zero(s: Seq<u64>)
    ensures
        all_zero2(xorshift128p(s)) <==> all_zero2(s),
        xorshift128p(s).len() == 2,
{
    bits_xorshift128p(s[0], s[1], s[0], s[1]);
}

/// The step is one-to-one: two states that step to the same state are the
/// same, so every state lies on a cycle.
pub proof fn lemma_xorshift128p_injective(s: Seq<u64>, t: Seq<u64>)
    requires
        s.len() == 2,
        t.len() == 2,
        xorshift128p(s) == xorshift128p(t),
    ensures
        s == t,
{
    bits_xorshift128p(s[0], s[1], t[0], t[1]);
}

/// No number of steps leads from a state with a non-zero word to the
/// all-zero state.
pub proof fn lemma_xorshift128p_nth_nonzero(s: Seq<u64>, n: nat)
    requires
        !all_zero2(s),
    ensures
        !all_zero2(xorshift128p_nth(s, n)),
    decreases n,
{
    if n > 0 {
        lemma_xorshift128p_nth_nonzero(s, (n - 1) as nat);
        lemma_xorshift128p_zero(xorshift128p_nth(s, (n - 1) as nat));
    }
}

/// Rotates the bits of `x` to the left by `k` places.
fn rotate_left(x: u64, k: u32) -> (r: u64)
    requires
        0 < k < 64,
    ensures
        r == rotate_left64(x, k),
{
    (x << k) | (x >> (64 - k))
}

/// The `XorShift128+` pseudo-random number generator.
///
/// It has a 128-bit state of two 64-bit words, never both zero, and
/// generates 64-bit numbers. Its view is the sequence of the two words.
#[derive(Clone, Copy, Debug, PartialEq, Eq)]
pub struct XorShift128p([u64; 2]);

impl View for XorShift128p {
    type V = Seq<u64>;

    closed spec fn view(&self) -> Seq<u64> {
        self.0@
    }
}

impl XorShift128p {
    #[verifier::type_invariant]
    spec fn nonzero(self) -> bool {
        !all_zero2(self.0@)
    }

    /// The generator one step ahead of `self`.
    pub closed spec fn peek(self) -> Self {
        let n = xorshift128p(self.0@);
        XorShift128p([n[0], n[1]])
    }

    /// Returns a seeded `XorShift128+` generator from the given 2 × 64-bit
    /// seeds.
    ///
    /// Returns `None` if both seeds are `0`.
    pub fn new(seeds: [u64; 2]) -> (r: Option<Self>)
        ensures
            all_zero2(seeds@) <==> r is None,
            r matches Some(g) ==> g@ == seeds@,
    {
        if seeds[0] != 0 || seeds[1] != 0 {
            Some(Self(seeds))
        } else {
            None
        }
    }

    /// Returns a seeded `XorShift128+` generator from the given 2 × 64-bit
    /// seeds, which must not both be `0`.
    pub fn new_unchecked(seeds: [u64; 2]) -> (r: Self)
        requires
            !all_zero2(seeds@),
        ensures
            r@ == seeds@,
    {
        Self(seeds)
    }

    /// Returns the current random `u64`.
    pub fn current_u64(&self) -> (r: u64)
        ensures
            r == xorshift128p_output(self@),
    {
        self.0[0].wrapping_add(self.0[1])
    }

    /// Advances the state by one step and returns the next random `u64`,
    /// which is the sum of the two words before the step.
    pub fn next_64(&mut self) -> (r: u64)
        ensures
            *final(self) == old(self).peek(),
            final(self)@ == xorshift128p(old(self)@),
            r == xorshift128p_output(old(self)@),
            !all_zero2(final(self)@),
    {
        proof {
            use_type_invariant(&*self);
            lemma_xorshift128p_zero(self.0@);
            self.lemma_peek();
        }
        let mut s1 = self.0[0];
        let s0 = self.0[1];
        let result = s0.wrapping_add(s1);
        s1 ^= s0;
        let next = [rotate_left(s0, 24) ^ s1 ^ (s1 << 16), rotate_left(s1, 37)];
        self.0 = next;
        result
    }

    /// Returns a copy of the next new random state, leaving `self` as it is.
    pub fn next_new(&self) -> (r: Self)
        ensures
            r == self.peek(),
            r@ == xorshift128p(self@),
    {
        proof {
            use_type_invariant(self);
            lemma_xorshift128p_zero(self.0@);
            self.lemma_peek();
        }
        let mut s1 = self.0[0];
        let s0 = self.0[1];
        s1 ^= s0;
        let next = [rotate_left(s0, 24) ^ s1 ^ (s1 << 16), rotate_left(s1, 37)];
        Self(next)
    }

    /// The view of a generator has two words, and two generators with the
    /// same view are equal, as are all the numbers they go on to produce.
    pub proof fn lemma_deterministic(self, other: Self, n: nat)
        requires
            self@ == other@,
        ensures
            self@.len() == 2,
            self == other,
            xorshift128p_outputs(self@, n) == xorshift128p_outputs(other@, n),
            xorshift128p_nth(self@, n) == xorshift128p_nth(other@, n),
    {
        assert(self.0 =~= other.0);
    }

    /// Peeking gives the generator that advancing leads to: its state is one
    /// step ahead, and all zero only if the state of `self` is.
    pub proof fn lemma_peek(self)
        ensures
            self.peek()@ == xorshift128p(self@),
            all_zero2(self@) <==> all_zero2(self.peek()@),
    {
        lemma_xorshift128p_zero(self@);
    }
}

/// # Extra constructors
impl XorShift128p {
    /// Returns a seeded `XorShift128+` generator from the given 128-bit seed,
    /// split in little-endian order.
    ///
    /// Returns `None` if the seed is `0`.
    pub fn new1_128(seed: u128) -> (r: Option<Self>)
        ensures
            seed == 0 <==> r is None,
            r matches Some(g) ==> g@ == split_u128_u64(seed),
    {
        proof {
            lemma_split_u128_u64_zero(seed);
        }
        Self::new(u128_into_u64_le(seed))
    }

    /// Returns a seeded `XorShift128+` generator from the given 2 × 64-bit
    /// seeds.
    ///
    /// This is an alias of [`new`][Self::new].
    pub fn new2_64(seeds: [u64; 2]) -> (r: Option<Self>)
        ensures
            all_zero2(seeds@) <==> r is None,
            r matches Some(g) ==> g@ == seeds@,
    {
        Self::new(seeds)
    }

    /// Returns a seeded `XorShift128+` generator from the given 4 × 32-bit
    /// seeds, each pair joined in little-endian order.
    ///
    /// Returns `None` if all seeds are `0`.
    pub fn new4_32(seeds: [u32; 4]) -> (r: Option<Self>)
        ensures
            (forall|i: int| 0 <= i < 4 ==> seeds@[i] == 0) <==> r is None,
            r matches Some(g) ==> g@ == seq![
                join_u64_u32(seeds@.subrange(0, 2)),
                join_u64_u32(seeds@.subrange(2, 4)),
            ],
    {
        proof {
            lemma_join_u64_u32_zero(seeds@.subrange(0, 2));
            lemma_join_u64_u32_zero(seeds@.subrange(2, 4));
        }
        let words = [
            u64_from_u32_le([seeds[0], seeds[1]]),
            u64_from_u32_le([seeds[2], seeds[3]]),
        ];
        Self::new(words)
    }

    /// Returns a seeded `XorShift128+` generator from the given 8 × 16-bit
    /// seeds, each four joined in little-endian order.
    ///
    /// Returns `None` if all seeds are `0`.
    pub fn new8_16(seeds: [u16; 8]) -> (r: Option<Self>)
        ensures
            (forall|i: int| 0 <= i < 8 ==> seeds@[i] == 0) <==> r is None,
            r matches Some(g) ==> g@ == seq![
                join_u64_u16(seeds@.subrange(0, 4)),
                join_u64_u16(seeds@.subrange(4, 8)),
            ],
    {
        proof {
            lemma_join_u64_u16_zero(seeds@.subrange(0, 4));
            lemma_join_u64_u16_zero(seeds@.subrange(4, 8));
        }
        let words = [
            u64_from_u16_le([seeds[0], seeds[1], seeds[2], seeds[3]]),
            u64_from_u16_le([seeds[4], seeds[5], seeds[6], seeds[7]]),
        ];
        Self::new(words)
    }

    /// Returns a seeded `XorShift128+` generator from the given 16 × 8-bit
    /// seeds, each eight joined in little-endian order.
    ///
    /// Returns `None` if all seeds are `0`.
    pub fn new16_8(seeds: [u8; 16]) -> (r: Option<Self>)
        ensures
            (forall|i: int| 0 <= i < 16 ==> seeds@[i] == 0) <==> r is None,
            r matches Some(g) ==> g@ == seq![
                join_u64_u8(seeds@.subrange(0, 8)),
                join_u64_u8(seeds@.subrange(8, 16)),
            ],
    {
        proof {
            lemma_join_u64_u8_zero(seeds@.subrange(0, 8));
            lemma_join_u64_u8_zero(seeds@.subrange(8, 16));
        }
        let s = seeds;
        let words = [
            u64_from_u8_le([s[0], s[1], s[2], s[3], s[4], s[5], s[6], s[7]]),
            u64_from_u8_le([s[8], s[9], s[10], s[11], s[12], s[13], s[14], s[15]]),
        ];
        Self::new(words)
    }

    /// Returns a seeded `XorShift128+` generator from the given 2 × 64-bit
    /// seeds.
    ///
    /// This is [`new`][Self::new] with the two seeds given apart.
    pub fn new2(seed1: u64, seed2: u64) -> (r: Option<Self>)
        ensures
            seed1 == 0 && seed2 == 0 <==> r is None,
            r matches Some(g) ==> g@ == seq![seed1, seed2],
    {
        let seeds = [seed1, seed2];
        Self::new(seeds)
    }

    /// Returns a seeded `XorShift128+` generator from the given 4 × 32-bit
    /// seeds, each pair joined in little-endian order.
    ///
    /// This is [`new4_32`][Self::new4_32] with the four seeds given apart.
    pub fn new4(seed1: u32, seed2: u32, seed3: u32, seed4: u32) -> (r: Option<Self>)
        ensures
            seed1 == 0 && seed2 == 0 && seed3 == 0 && seed4 == 0 <==> r is None,
            r matches Some(g) ==> g@ == seq![
                join_u64_u32(seq![seed1, seed2]),
                join_u64_u32(seq![seed3, seed4]),
            ],
    {
        let seeds = [seed1, seed2, seed3, seed4];
        Self::new4_32(seeds)
    }
}

} // verus!
