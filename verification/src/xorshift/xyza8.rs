//! Two 8-bit generators with four bytes of state, loosely based on XorShift.

use vstd::prelude::*;
use crate::endian::{join_u32_u8, join_u64_u8, split_u16_u8, split_u32_u8};
use devela::convert::{u16_into_u8_le, u32_from_u8_le, u32_into_u8_le, u64_from_u8_le};

verus! {

/// The seed of the default generators.
pub const XYZA8_DEFAULT_SEED: [u8; 4] = [0xDE, 0xFA, 0x00, 0x17];

// ---------------------------------------------------------------------------
// Xyza8a
// ---------------------------------------------------------------------------
/// One step of the `Xyza8a` recurrence on the four bytes `s[0..4]`, which
/// stand for `x, y, z, a`.
///
/// The bytes move down by one place, `x` leaving, and the new `a` mixes the
/// old `a` with `t`, made of the old `x`.
pub open spec fn xyza8a(s: Seq<u8>) -> Seq<u8> {
    let t = s[0] ^ (s[0] << 4);
    seq![s[1], s[2], s[3], s[3] ^ t ^ (s[3] >> 1) ^ (t << 1)]
}

proof fn bits_xyza8a(x: u8, y: u8, a: u8)
    by (bit_vector)
    ensures
        ({
            let t = x ^ (x << 4);
            let u = y ^ (y << 4);
            a ^ t ^ (a >> 1) ^ (t << 1) == a ^ u ^ (a >> 1) ^ (u << 1) ==> x == y
        }),
{
}

/// The step is one-to-one: two states that step to the same state are the
/// same, so every state lies on a cycle.
pub proof fn lemma_xyza8a_injective(s: Seq<u8>, t: Seq<u8>)
    requires
        s.len() == 4,
        t.len() == 4,
        xyza8a(s) == xyza8a(t),
    ensures
        s == t,
{
    bits_xyza8a(s[0], t[0], s[3]);
}

/// The state reached from `s` after `n` steps.
pub open spec fn xyza8a_nth(s: Seq<u8>, n: nat) -> Seq<u8>
    decreases n,
{
    if n == 0 {
        s
    } else {
        xyza8a(xyza8a_nth(s, (n - 1) as nat))
    }
}

/// The first `n` numbers produced from the state `s`: after each step, the
/// last byte.
pub open spec fn xyza8a_outputs(s: Seq<u8>, n: nat) -> Seq<u8> {
    Seq::new(n, |i: int| xyza8a_nth(s, (i + 1) as nat)[3])
}

/// A simple 8-bit pseudo-random number generator with 32-bit of state,
/// based on the *XorShift* algorithm.
///
/// It has a 0.8% chance of falling into a poor quality short chain, so some
/// degree of care is required to seed it. Its longest cycle is
/// 4,261,412,736. Every state is allowed, all zeros too. Its view is the
/// sequence of its four bytes `x, y, z, a`.
///
/// # License
/// The algorithm is that of [8bit_rng](https://github.com/edrosten/8bit_rng).
/// Copyright (c) 2008-2013 Edward Rosten.
/// Licensed under the [BSD 2-Clause "Simplified" License][license]
///
/// [license]: https://github.com/edrosten/8bit_rng/blob/master/LICENSE
#[derive(Clone, Copy, Debug, PartialEq, Eq)]
pub struct Xyza8a {
    x: u8,
    y: u8,
    z: u8,
    a: u8,
}

impl View for Xyza8a {
    type V = Seq<u8>;

    closed spec fn view(&self) -> Seq<u8> {
        seq![self.x, self.y, self.z, self.a]
    }
}

impl Default for Xyza8a {
    /// Returns the generator seeded with [`XYZA8_DEFAULT_SEED`].
    fn default() -> (r: Self)
        ensures
            r@ == XYZA8_DEFAULT_SEED@,
    {
        Self::new(XYZA8_DEFAULT_SEED)
    }
}

impl Xyza8a {
    /// The generator one step ahead of `self`.
    pub closed spec fn peek(self) -> Self {
        let n = xyza8a(self@);
        Xyza8a { x: n[0], y: n[1], z: n[2], a: n[3] }
    }

    /// Returns a seeded `Xyza8a` generator from the given 4 × 8-bit seeds.
    pub fn new(seeds: [u8; 4]) -> (r: Self)
        ensures
            r@ == seeds@,
    {
        let r = Self { x: seeds[0], y: seeds[1], z: seeds[2], a: seeds[3] };
        r
    }

    /// Returns the current random `u8`.
    pub fn current_u8(&self) -> (r: u8)
        ensures
            r == self@[3],
    {
        self.a
    }

    /// Advances the state by one step and returns the next random `u8`.
    pub fn next_u8(&mut self) -> (r: u8)
        ensures
            *final(self) == old(self).peek(),
            final(self)@ == xyza8a(old(self)@),
            r == final(self)@[3],
    {
        let t = self.x ^ (self.x << 4);
        self.x = self.y;
        self.y = self.z;
        self.z = self.a;
        self.a = self.z ^ t ^ (self.z >> 1) ^ (t << 1);
        self.a
    }

    /// Returns a copy of the next new random state, leaving `self` as it is.
    pub fn next_new(&self) -> (r: Self)
        ensures
            r == self.peek(),
            r@ == xyza8a(self@),
    {
        let mut new = *self;

        let t = new.x ^ (new.x << 4);
        new.x = new.y;
        new.y = new.z;
        new.z = new.a;
        new.a = new.z ^ t ^ (new.z >> 1) ^ (t << 1);
        new
    }

    /// The view of a generator has four bytes, and two generators with the
    /// same view are equal, as are all the numbers they go on to produce.
    pub proof fn lemma_deterministic(self, other: Self, n: nat)
        requires
            self@ == other@,
        ensures
            self@.len() == 4,
            self == other,
            xyza8a_outputs(self@, n) == xyza8a_outputs(other@, n),
            xyza8a_nth(self@, n) == xyza8a_nth(other@, n),
    {
    }

    /// Peeking gives the generator that advancing leads to: its state is one
    /// step ahead.
    pub proof fn lemma_peek(self)
        ensures
            self.peek()@ == xyza8a(self@),
    {
    }
}

/// # Extra constructors
impl Xyza8a {
    /// Returns a seeded `Xyza8a` generator from the given 32-bit seed, split in
    /// little-endian order.
    pub fn new1_u32(seed: u32) -> (r: Self)
        ensures
            r@ == split_u32_u8(seed),
    {
        Self::new(u32_into_u8_le(seed))
    }

    /// Returns a seeded `Xyza8a` generator from the given 2 × 16-bit seeds, each
    /// split in little-endian order.
    pub fn new2_u16(seeds: [u16; 2]) -> (r: Self)
        ensures
            r@ == split_u16_u8(seeds@[0]) + split_u16_u8(seeds@[1]),
    {
        let lo = u16_into_u8_le(seeds[0]);
        let hi = u16_into_u8_le(seeds[1]);
        let bytes = [lo[0], lo[1], hi[0], hi[1]];
        Self::new(bytes)
    }

    /// Returns a seeded `Xyza8a` generator from the given 4 × 8-bit seeds.
    ///
    /// This is an alias of [`new`][Self::new].
    pub fn new4_u8(seeds: [u8; 4]) -> (r: Self)
        ensures
            r@ == seeds@,
    {
        Self::new(seeds)
    }
}

/// # Wider outputs, byte buffers and byte seeds
impl Xyza8a {
    /// Returns the next 4 × random `u8` combined as a single `u32`, the first
    /// one in the lowest byte.
    pub fn next_u32(&mut self) -> (r: u32)
        ensures
            final(self)@ == xyza8a_nth(old(self)@, 4),
            r == join_u32_u8(xyza8a_outputs(old(self)@, 4)),
    {
        let a = self.next_u8();
        let b = self.next_u8();
        let c = self.next_u8();
        let d = self.next_u8();
        proof {
            reveal_with_fuel(xyza8a_nth, 5);
        }
        u32_from_u8_le([a, b, c, d])
    }

    /// Returns the next 8 × random `u8` combined as a single `u64`, the first
    /// one in the lowest byte.
    pub fn next_u64(&mut self) -> (r: u64)
        ensures
            final(self)@ == xyza8a_nth(old(self)@, 8),
            r == join_u64_u8(xyza8a_outputs(old(self)@, 8)),
    {
        let a = self.next_u8();
        let b = self.next_u8();
        let c = self.next_u8();
        let d = self.next_u8();
        let e = self.next_u8();
        let f = self.next_u8();
        let g = self.next_u8();
        let h = self.next_u8();
        proof {
            reveal_with_fuel(xyza8a_nth, 9);
        }
        u64_from_u8_le([a, b, c, d, e, f, g, h])
    }

    /// Fills `dest` with the next random numbers, one for each byte.
    pub fn fill_bytes(&mut self, dest: &mut [u8])
        ensures
            final(self)@ == xyza8a_nth(old(self)@, old(dest)@.len()),
            final(dest)@ == xyza8a_outputs(old(self)@, old(dest)@.len()),
    {
        let ghost start = self@;
        let n = dest.len();
        let mut i: usize = 0;
        while i < n
            invariant
                n == dest@.len(),
                i <= n,
                self@ == xyza8a_nth(start, i as nat),
                forall|j: int|
                    0 <= j < i ==> #[trigger] dest@[j] == xyza8a_nth(start, (j + 1) as nat)[3],
            decreases n - i,
        {
            dest[i] = self.next_u8();
            i += 1;
        }
    }

    /// Returns the generator whose state is the given four bytes.
    pub fn from_seed(seeds: [u8; 4]) -> (r: Self)
        ensures
            r@ == seeds@,
    {
        Self::new(seeds)
    }
}

// ---------------------------------------------------------------------------
// Xyza8b
// ---------------------------------------------------------------------------
/// One step of the `Xyza8b` recurrence on the four bytes `s[0..4]`, which
/// stand for `x, y, z, a`.
///
/// The bytes move down by one place, `x` leaving, and the new `a` mixes the
/// old `a` with `t`, made of the old `x`.
pub open spec fn xyza8b(s: Seq<u8>) -> Seq<u8> {
    let t = s[0] ^ (s[0] >> 1);
    seq![s[1], s[2], s[3], s[3] ^ t ^ (s[3] >> 3) ^ (t << 1)]
}

proof fn bits_xyza8b(x: u8, y: u8, a: u8)
    by (bit_vector)
    ensures
        ({
            let t = x ^ (x >> 1);
            let u = y ^ (y >> 1);
            a ^ t ^ (a >> 3) ^ (t << 1) == a ^ u ^ (a >> 3) ^ (u << 1) ==> x == y
        }),
{
}

/// The step is one-to-one: two states that step to the same state are the
/// same, so every state lies on a cycle.
pub proof fn lemma_xyza8b_injective(s: Seq<u8>, t: Seq<u8>)
    requires
        s.len() == 4,
        t.len() == 4,
        xyza8b(s) == xyza8b(t),
    ensures
        s == t,
{
    bits_xyza8b(s[0], t[0], s[3]);
}

/// The state reached from `s` after `n` steps.
pub open spec fn xyza8b_nth(s: Seq<u8>, n: nat) -> Seq<u8>
    decreases n,
{
    if n == 0 {
        s
    } else {
        xyza8b(xyza8b_nth(s, (n - 1) as nat))
    }
}

/// The first `n` numbers produced from the state `s`: after each step, the
/// last byte.
pub open spec fn xyza8b_outputs(s: Seq<u8>, n: nat) -> Seq<u8> {
    Seq::new(n, |i: int| xyza8b_nth(s, (i + 1) as nat)[3])
}

/// A simple 8-bit pseudo-random number generator with 32-bit of state,
/// based on the *XorShift* algorithm.
///
/// It has an almost optimal cycle, so no real care is required for seeding
/// except avoiding all zeros, but its numbers are of lower quality than
/// those of [`Xyza8a`]. Its longest cycle is 4,294,967,294. Every state is
/// allowed, all zeros too. Its view is the sequence of its four bytes
/// `x, y, z, a`.
#[derive(Clone, Copy, Debug, PartialEq, Eq)]
pub struct Xyza8b {
    x: u8,
    y: u8,
    z: u8,
    a: u8,
}

impl View for Xyza8b {
    type V = Seq<u8>;

    closed spec fn view(&self) -> Seq<u8> {
        seq![self.x, self.y, self.z, self.a]
    }
}

impl Default for Xyza8b {
    /// Returns the generator seeded with [`XYZA8_DEFAULT_SEED`].
    fn default() -> (r: Self)
        ensures
            r@ == XYZA8_DEFAULT_SEED@,
    {
        Self::new(XYZA8_DEFAULT_SEED)
    }
}

impl Xyza8b {
    /// The generator one step ahead of `self`.
    pub closed spec fn peek(self) -> Self {
        let n = xyza8b(self@);
        Xyza8b { x: n[0], y: n[1], z: n[2], a: n[3] }
    }

    /// Returns a seeded `Xyza8b` generator from the given 4 × 8-bit seeds.
    pub fn new(seeds: [u8; 4]) -> (r: Self)
        ensures
            r@ == seeds@,
    {
        let r = Self { x: seeds[0], y: seeds[1], z: seeds[2], a: seeds[3] };
        r
    }

    /// Returns the current random `u8`.
    pub fn current_u8(&self) -> (r: u8)
        ensures
            r == self@[3],
    {
        self.a
    }

    /// Advances the state by one step and returns the next random `u8`.
    pub fn next_u8(&mut self) -> (r: u8)
        ensures
            *final(self) == old(self).peek(),
            final(self)@ == xyza8b(old(self)@),
            r == final(self)@[3],
    {
        let t = self.x ^ (self.x >> 1);
        self.x = self.y;
        self.y = self.z;
        self.z = self.a;
        self.a = self.z ^ t ^ (self.z >> 3) ^ (t << 1);
        self.a
    }

    /// Returns a copy of the next new random state, leaving `self` as it is.
    pub fn next_new(&self) -> (r: Self)
        ensures
            r == self.peek(),
            r@ == xyza8b(self@),
    {
        let mut new = *self;

        let t = new.x ^ (new.x >> 1);
        new.x = new.y;
        new.y = new.z;
        new.z = new.a;
        new.a = new.z ^ t ^ (new.z >> 3) ^ (t << 1);
        new
    }

    /// The view of a generator has four bytes, and two generators with the
    /// same view are equal, as are all the numbers they go on to produce.
    pub proof fn lemma_deterministic(self, other: Self, n: nat)
        requires
            self@ == other@,
        ensures
            self@.len() == 4,
            self == other,
            xyza8b_outputs(self@, n) == xyza8b_outputs(other@, n),
            xyza8b_nth(self@, n) == xyza8b_nth(other@, n),
    {
    }

    /// Peeking gives the generator that advancing leads to: its state is one
    /// step ahead.
    pub proof fn lemma_peek(self)
        ensures
            self.peek()@ == xyza8b(self@),
    {
    }
}

/// # Extra constructors
impl Xyza8b {
    /// Returns a seeded `Xyza8b` generator from the given 32-bit seed, split in
    /// little-endian order.
    pub fn new1_u32(seed: u32) -> (r: Self)
        ensures
            r@ == split_u32_u8(seed),
    {
        Self::new(u32_into_u8_le(seed))
    }

    /// Returns a seeded `Xyza8b` generator from the given 2 × 16-bit seeds, each
    /// split in little-endian order.
    pub fn new2_u16(seeds: [u16; 2]) -> (r: Self)
        ensures
            r@ == split_u16_u8(seeds@[0]) + split_u16_u8(seeds@[1]),
    {
        let lo = u16_into_u8_le(seeds[0]);
        let hi = u16_into_u8_le(seeds[1]);
        let bytes = [lo[0], lo[1], hi[0], hi[1]];
        Self::new(bytes)
    }

    /// Returns a seeded `Xyza8b` generator from the given 4 × 8-bit seeds.
    ///
    /// This is an alias of [`new`][Self::new].
    pub fn new4_u8(seeds: [u8; 4]) -> (r: Self)
        ensures
            r@ == seeds@,
    {
        Self::new(seeds)
    }
}

/// # Wider outputs, byte buffers and byte seeds
impl Xyza8b {
    /// Returns the next 4 × random `u8` combined as a single `u32`, the first
    /// one in the lowest byte.
    pub fn next_u32(&mut self) -> (r: u32)
        ensures
            final(self)@ == xyza8b_nth(old(self)@, 4),
            r == join_u32_u8(xyza8b_outputs(old(self)@, 4)),
    {
        let a = self.next_u8();
        let b = self.next_u8();
        let c = self.next_u8();
        let d = self.next_u8();
        proof {
            reveal_with_fuel(xyza8b_nth, 5);
        }
        u32_from_u8_le([a, b, c, d])
    }

    /// Returns the next 8 × random `u8` combined as a single `u64`, the first
    /// one in the lowest byte.
    pub fn next_u64(&mut self) -> (r: u64)
        ensures
            final(self)@ == xyza8b_nth(old(self)@, 8),
            r == join_u64_u8(xyza8b_outputs(old(self)@, 8)),
    {
        let a = self.next_u8();
        let b = self.next_u8();
        let c = self.next_u8();
        let d = self.next_u8();
        let e = self.next_u8();
        let f = self.next_u8();
        let g = self.next_u8();
        let h = self.next_u8();
        proof {
            reveal_with_fuel(xyza8b_nth, 9);
        }
        u64_from_u8_le([a, b, c, d, e, f, g, h])
    }

    /// Fills `dest` with the next random numbers, one for each byte.
    pub fn fill_bytes(&mut self, dest: &mut [u8])
        ensures
            final(self)@ == xyza8b_nth(old(self)@, old(dest)@.len()),
            final(dest)@ == xyza8b_outputs(old(self)@, old(dest)@.len()),
    {
        let ghost start = self@;
        let n = dest.len();
        let mut i: usize = 0;
        while i < n
            invariant
                n == dest@.len(),
                i <= n,
                self@ == xyza8b_nth(start, i as nat),
                forall|j: int|
                    0 <= j < i ==> #[trigger] dest@[j] == xyza8b_nth(start, (j + 1) as nat)[3],
            decreases n - i,
        {
            dest[i] = self.next_u8();
            i += 1;
        }
    }

    /// Returns the generator whose state is the given four bytes.
    pub fn from_seed(seeds: [u8; 4]) -> (r: Self)
        ensures
            r@ == seeds@,
    {
        Self::new(seeds)
    }
}

} // verus!
