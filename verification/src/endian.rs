//! Little-endian composition of a wide integer from narrower words, and the
//! reverse split.
//!
//! The least-significant word always comes first. A sequence of words stands
//! for the array that holds them. The executable conversions are the ones of
//! the `devela` crate: their contracts, at the end of this file, are stated
//! over the spec functions defined here and are taken on trust.

use vstd::prelude::*;

verus! {

// ---------------------------------------------------------------------------
// u16 <-> 2 x u8
// ---------------------------------------------------------------------------
/// The `u16` whose little-endian bytes are `w[0], w[1]`.
pub open spec fn join_u16_u8(w: Seq<u8>) -> u16 {
    (w[0] as u16) | ((w[1] as u16) << 8)
}

/// The two little-endian bytes of `x`.
pub open spec fn split_u16_u8(x: u16) -> Seq<u8> {
    seq![(x & 0xff) as u8, (x >> 8) as u8]
}

proof fn bits_u16_u8(a: u8, b: u8, x: u16)
    by (bit_vector)
    ensures
        ({
            let j = (a as u16) | ((b as u16) << 8);
            (j & 0xff) as u8 == a && (j >> 8) as u8 == b && (j == 0 <==> a == 0 && b == 0)
        }),
        (((x & 0xff) as u8) as u16) | ((((x >> 8) as u8) as u16) << 8) == x,
{
}

/// Splitting what was joined gives the two bytes back.
pub proof fn lemma_split_join_u16_u8(w: [u8; 2])
    ensures
        split_u16_u8(join_u16_u8(w@)) == w@,
{
    bits_u16_u8(w@[0], w@[1], 0);
}

/// Joining what was split gives the value back.
pub proof fn lemma_join_split_u16_u8(x: u16)
    ensures
        join_u16_u8(split_u16_u8(x)) == x,
{
    bits_u16_u8(0, 0, x);
}

/// Two bytes join to zero exactly when both are zero.
pub proof fn lemma_join_u16_u8_zero(w: Seq<u8>)
    ensures
        join_u16_u8(w) == 0 <==> w[0] == 0 && w[1] == 0,
{
    bits_u16_u8(w[0], w[1], 0);
}

// ---------------------------------------------------------------------------
// u32 <-> 2 x u16
// ---------------------------------------------------------------------------
/// The `u32` whose little-endian 16-bit halves are `w[0], w[1]`.
pub open spec fn join_u32_u16(w: Seq<u16>) -> u32 {
    (w[0] as u32) | ((w[1] as u32) << 16)
}

/// The two little-endian 16-bit halves of `x`.
pub open spec fn split_u32_u16(x: u32) -> Seq<u16> {
    seq![(x & 0xffff) as u16, (x >> 16) as u16]
}

proof fn bits_u32_u16(a: u16, b: u16, x: u32)
    by (bit_vector)
    ensures
        ({
            let j = (a as u32) | ((b as u32) << 16);
            (j & 0xffff) as u16 == a && (j >> 16) as u16 == b && (j == 0 <==> a == 0 && b == 0)
        }),
        (((x & 0xffff) as u16) as u32) | ((((x >> 16) as u16) as u32) << 16) == x,
{
}

/// Splitting what was joined gives the two halves back.
pub proof fn lemma_split_join_u32_u16(w: [u16; 2])
    ensures
        split_u32_u16(join_u32_u16(w@)) == w@,
{
    bits_u32_u16(w@[0], w@[1], 0);
}

/// Joining what was split gives the value back.
pub proof fn lemma_join_split_u32_u16(x: u32)
    ensures
        join_u32_u16(split_u32_u16(x)) == x,
{
    bits_u32_u16(0, 0, x);
}

/// Two halves join to zero exactly when both are zero.
pub proof fn lemma_join_u32_u16_zero(w: Seq<u16>)
    ensures
        join_u32_u16(w) == 0 <==> w[0] == 0 && w[1] == 0,
{
    bits_u32_u16(w[0], w[1], 0);
}

// ---------------------------------------------------------------------------
// u32 <-> 4 x u8
// ---------------------------------------------------------------------------
/// The `u32` whose little-endian bytes are `w[0], .., w[3]`.
pub open spec fn join_u32_u8(w: Seq<u8>) -> u32 {
    (w[0] as u32) | ((w[1] as u32) << 8) | ((w[2] as u32) << 16) | ((w[3] as u32) << 24)
}

/// The four little-endian bytes of `x`.
pub open spec fn split_u32_u8(x: u32) -> Seq<u8> {
    seq![
        (x & 0xff) as u8,
        ((x >> 8) & 0xff) as u8,
        ((x >> 16) & 0xff) as u8,
        (x >> 24) as u8,
    ]
}

proof fn bits_u32_u8(a: u8, b: u8, c: u8, d: u8, x: u32)
    by (bit_vector)
    ensures
        ({
            let j = (a as u32) | ((b as u32) << 8) | ((c as u32) << 16) | ((d as u32) << 24);
            &&& (j & 0xff) as u8 == a
            &&& ((j >> 8) & 0xff) as u8 == b
            &&& ((j >> 16) & 0xff) as u8 == c
            &&& (j >> 24) as u8 == d
            &&& (j == 0 <==> a == 0 && b == 0 && c == 0 && d == 0)
        }),
        (((x & 0xff) as u8) as u32) | (((((x >> 8) & 0xff) as u8) as u32) << 8) | (((((x >> 16)
            & 0xff) as u8) as u32) << 16) | ((((x >> 24) as u8) as u32) << 24) == x,
{
}

/// Splitting what was joined gives the four bytes back.
pub proof fn lemma_split_join_u32_u8(w: [u8; 4])
    ensures
        split_u32_u8(join_u32_u8(w@)) == w@,
{
    bits_u32_u8(w@[0], w@[1], w@[2], w@[3], 0);
}

/// Joining what was split gives the value back.
pub proof fn lemma_join_split_u32_u8(x: u32)
    ensures
        join_u32_u8(split_u32_u8(x)) == x,
{
    bits_u32_u8(0, 0, 0, 0, x);
}

/// Four bytes join to zero exactly when all are zero.
pub proof fn lemma_join_u32_u8_zero(w: Seq<u8>)
    ensures
        join_u32_u8(w) == 0 <==> forall|i: int| 0 <= i < 4 ==> w[i] == 0,
{
    bits_u32_u8(w[0], w[1], w[2], w[3], 0);
}

// ---------------------------------------------------------------------------
// u64 <-> 2 x u32
// ---------------------------------------------------------------------------
/// The `u64` whose little-endian 32-bit halves are `w[0], w[1]`.
pub open spec fn join_u64_u32(w: Seq<u32>) -> u64 {
    (w[0] as u64) | ((w[1] as u64) << 32)
}

/// The two little-endian 32-bit halves of `x`.
pub open spec fn split_u64_u32(x: u64) -> Seq<u32> {
    seq![(x & 0xffff_ffff) as u32, (x >> 32) as u32]
}

proof fn bits_u64_u32(a: u32, b: u32, x: u64)
    by (bit_vector)
    ensures
        ({
            let j = (a as u64) | ((b as u64) << 32);
            &&& (j & 0xffff_ffff) as u32 == a
            &&& (j >> 32) as u32 == b
            &&& (j == 0 <==> a == 0 && b == 0)
        }),
        (((x & 0xffff_ffff) as u32) as u64) | ((((x >> 32) as u32) as u64) << 32) == x,
        x == 0 <==> (x & 0xffff_ffff) as u32 == 0 && (x >> 32) as u32 == 0,
{
}

/// Splitting what was joined gives the two halves back.
pub proof fn lemma_split_join_u64_u32(w: [u32; 2])
    ensures
        split_u64_u32(join_u64_u32(w@)) == w@,
{
    bits_u64_u32(w@[0], w@[1], 0);
}

/// Joining what was split gives the value back.
pub proof fn lemma_join_split_u64_u32(x: u64)
    ensures
        join_u64_u32(split_u64_u32(x)) == x,
{
    bits_u64_u32(0, 0, x);
}

/// Two halves join to zero exactly when both are zero.
pub proof fn lemma_join_u64_u32_zero(w: Seq<u32>)
    ensures
        join_u64_u32(w) == 0 <==> w[0] == 0 && w[1] == 0,
{
    bits_u64_u32(w[0], w[1], 0);
}

/// A `u64` is zero exactly when both of its halves are zero.
pub proof fn lemma_split_u64_u32_zero(x: u64)
    ensures
        x == 0 <==> split_u64_u32(x)[0] == 0 && split_u64_u32(x)[1] == 0,
{
    bits_u64_u32(0, 0, x);
}

// ---------------------------------------------------------------------------
// u64 <-> 4 x u16
// ---------------------------------------------------------------------------
/// The `u64` whose little-endian 16-bit words are `w[0], .., w[3]`.
pub open spec fn join_u64_u16(w: Seq<u16>) -> u64 {
    (w[0] as u64) | ((w[1] as u64) << 16) | ((w[2] as u64) << 32) | ((w[3] as u64) << 48)
}

/// The four little-endian 16-bit words of `x`.
pub open spec fn split_u64_u16(x: u64) -> Seq<u16> {
    seq![
        (x & 0xffff) as u16,
        ((x >> 16) & 0xffff) as u16,
        ((x >> 32) & 0xffff) as u16,
        (x >> 48) as u16,
    ]
}

proof fn bits_u64_u16(a: u16, b: u16, c: u16, d: u16, x: u64)
    by (bit_vector)
    ensures
        ({
            let j = (a as u64) | ((b as u64) << 16) | ((c as u64) << 32) | ((d as u64) << 48);
            &&& (j & 0xffff) as u16 == a
            &&& ((j >> 16) & 0xffff) as u16 == b
            &&& ((j >> 32) & 0xffff) as u16 == c
            &&& (j >> 48) as u16 == d
            &&& (j == 0 <==> a == 0 && b == 0 && c == 0 && d == 0)
        }),
        (((x & 0xffff) as u16) as u64) | (((((x >> 16) & 0xffff) as u16) as u64) << 16) | (((((x
            >> 32) & 0xffff) as u16) as u64) << 32) | ((((x >> 48) as u16) as u64) << 48) == x,
{
}

/// Splitting what was joined gives the four words back.
pub proof fn lemma_split_join_u64_u16(w: [u16; 4])
    ensures
        split_u64_u16(join_u64_u16(w@)) == w@,
{
    bits_u64_u16(w@[0], w@[1], w@[2], w@[3], 0);
}

/// Joining what was split gives the value back.
pub proof fn lemma_join_split_u64_u16(x: u64)
    ensures
        join_u64_u16(split_u64_u16(x)) == x,
{
    bits_u64_u16(0, 0, 0, 0, x);
}

/// Four words join to zero exactly when all are zero.
pub proof fn lemma_join_u64_u16_zero(w: Seq<u16>)
    ensures
        join_u64_u16(w) == 0 <==> forall|i: int| 0 <= i < 4 ==> w[i] == 0,
{
    bits_u64_u16(w[0], w[1], w[2], w[3], 0);
}

// ---------------------------------------------------------------------------
// u64 <-> 8 x u8
// ---------------------------------------------------------------------------
/// The `u64` whose little-endian bytes are `w[0], .., w[7]`.
pub open spec fn join_u64_u8(w: Seq<u8>) -> u64 {
    (w[0] as u64) | ((w[1] as u64) << 8) | ((w[2] as u64) << 16) | ((w[3] as u64) << 24) | ((
    w[4] as u64) << 32) | ((w[5] as u64) << 40) | ((w[6] as u64) << 48) | ((w[7] as u64) << 56)
}

/// The eight little-endian bytes of `x`.
pub open spec fn split_u64_u8(x: u64) -> Seq<u8> {
    seq![
        (x & 0xff) as u8,
        ((x >> 8) & 0xff) as u8,
        ((x >> 16) & 0xff) as u8,
        ((x >> 24) & 0xff) as u8,
        ((x >> 32) & 0xff) as u8,
        ((x >> 40) & 0xff) as u8,
        ((x >> 48) & 0xff) as u8,
        (x >> 56) as u8,
    ]
}

proof fn bits_join_u64_u8(a: u8, b: u8, c: u8, d: u8, e: u8, f: u8, g: u8, h: u8)
    by (bit_vector)
    ensures
        ({
            let j = (a as u64) | ((b as u64) << 8) | ((c as u64) << 16) | ((d as u64) << 24) | ((
            e as u64) << 32) | ((f as u64) << 40) | ((g as u64) << 48) | ((h as u64) << 56);
            &&& (j & 0xff) as u8 == a
            &&& ((j >> 8) & 0xff) as u8 == b
            &&& ((j >> 16) & 0xff) as u8 == c
            &&& ((j >> 24) & 0xff) as u8 == d
            &&& ((j >> 32) & 0xff) as u8 == e
            &&& ((j >> 40) & 0xff) as u8 == f
            &&& ((j >> 48) & 0xff) as u8 == g
            &&& (j >> 56) as u8 == h
            &&& (j == 0 <==> a == 0 && b == 0 && c == 0 && d == 0 && e == 0 && f == 0 && g == 0
                && h == 0)
        }),
{
}

proof fn bits_split_u64_u8(x: u64)
    by (bit_vector)
    ensures
        (((x & 0xff) as u8) as u64) | (((((x >> 8) & 0xff) as u8) as u64) << 8) | (((((x >> 16)
            & 0xff) as u8) as u64) << 16) | (((((x >> 24) & 0xff) as u8) as u64) << 24) | (((((x
            >> 32) & 0xff) as u8) as u64) << 32) | (((((x >> 40) & 0xff) as u8) as u64) << 40) | (((((
        x >> 48) & 0xff) as u8) as u64) << 48) | ((((x >> 56) as u8) as u64) << 56) == x,
{
}

/// Splitting what was joined gives the eight bytes back.
pub proof fn lemma_split_join_u64_u8(w: [u8; 8])
    ensures
        split_u64_u8(join_u64_u8(w@)) == w@,
{
    bits_join_u64_u8(w@[0], w@[1], w@[2], w@[3], w@[4], w@[5], w@[6], w@[7]);
}

/// Joining what was split gives the value back.
pub proof fn lemma_join_split_u64_u8(x: u64)
    ensures
        join_u64_u8(split_u64_u8(x)) == x,
{
    bits_split_u64_u8(x);
}

/// Eight bytes join to zero exactly when all are zero.
pub proof fn lemma_join_u64_u8_zero(w: Seq<u8>)
    ensures
        join_u64_u8(w) == 0 <==> forall|i: int| 0 <= i < 8 ==> w[i] == 0,
{
    bits_join_u64_u8(w[0], w[1], w[2], w[3], w[4], w[5], w[6], w[7]);
}

// ---------------------------------------------------------------------------
// u128 <-> 2 x u64
// ---------------------------------------------------------------------------
/// The `u128` whose little-endian 64-bit halves are `w[0], w[1]`.
pub open spec fn join_u128_u64(w: Seq<u64>) -> u128 {
    (w[0] as u128) | ((w[1] as u128) << 64)
}

/// The two little-endian 64-bit halves of `x`.
pub open spec fn split_u128_u64(x: u128) -> Seq<u64> {
    seq![(x & 0xffff_ffff_ffff_ffff) as u64, (x >> 64) as u64]
}

proof fn bits_u128_u64(a: u64, b: u64, x: u128)
    by (bit_vector)
    ensures
        ({
            let j = (a as u128) | ((b as u128) << 64);
            (j & 0xffff_ffff_ffff_ffff) as u64 == a && (j >> 64) as u64 == b
        }),
        (((x & 0xffff_ffff_ffff_ffff) as u64) as u128) | ((((x >> 64) as u64) as u128) << 64)
            == x,
        x == 0 <==> (x & 0xffff_ffff_ffff_ffff) as u64 == 0 && (x >> 64) as u64 == 0,
{
}

/// Splitting what was joined gives the two halves back.
pub proof fn lemma_split_join_u128_u64(w: [u64; 2])
    ensures
        split_u128_u64(join_u128_u64(w@)) == w@,
{
    bits_u128_u64(w@[0], w@[1], 0);
}

/// Joining what was split gives the value back.
pub proof fn lemma_join_split_u128_u64(x: u128)
    ensures
        join_u128_u64(split_u128_u64(x)) == x,
{
    bits_u128_u64(0, 0, x);
}

/// A `u128` is zero exactly when both of its halves are zero.
pub proof fn lemma_split_u128_u64_zero(x: u128)
    ensures
        x == 0 <==> split_u128_u64(x)[0] == 0 && split_u128_u64(x)[1] == 0,
{
    bits_u128_u64(0, 0, x);
}

// ---------------------------------------------------------------------------
// u128 <-> 4 x u32
// ---------------------------------------------------------------------------
/// The `u128` whose little-endian 32-bit words are `w[0], .., w[3]`.
pub open spec fn join_u128_u32(w: Seq<u32>) -> u128 {
    (w[0] as u128) | ((w[1] as u128) << 32) | ((w[2] as u128) << 64) | ((w[3] as u128) << 96)
}

/// The four little-endian 32-bit words of `x`.
pub open spec fn split_u128_u32(x: u128) -> Seq<u32> {
    seq![
        (x & 0xffff_ffff) as u32,
        ((x >> 32) & 0xffff_ffff) as u32,
        ((x >> 64) & 0xffff_ffff) as u32,
        (x >> 96) as u32,
    ]
}

proof fn bits_u128_u32(a: u32, b: u32, c: u32, d: u32, x: u128)
    by (bit_vector)
    ensures
        ({
            let j = (a as u128) | ((b as u128) << 32) | ((c as u128) << 64) | ((d as u128) << 96);
            &&& (j & 0xffff_ffff) as u32 == a
            &&& ((j >> 32) & 0xffff_ffff) as u32 == b
            &&& ((j >> 64) & 0xffff_ffff) as u32 == c
            &&& (j >> 96) as u32 == d
        }),
        (((x & 0xffff_ffff) as u32) as u128) | (((((x >> 32) & 0xffff_ffff) as u32) as u128)
            << 32) | (((((x >> 64) & 0xffff_ffff) as u32) as u128) << 64) | ((((x >> 96) as u32)
            as u128) << 96) == x,
        x == 0 <==> (x & 0xffff_ffff) as u32 == 0 && ((x >> 32) & 0xffff_ffff) as u32 == 0 && ((x
            >> 64) & 0xffff_ffff) as u32 == 0 && (x >> 96) as u32 == 0,
{
}

/// Splitting what was joined gives the four words back.
pub proof fn lemma_split_join_u128_u32(w: [u32; 4])
    ensures
        split_u128_u32(join_u128_u32(w@)) == w@,
{
    bits_u128_u32(w@[0], w@[1], w@[2], w@[3], 0);
}

/// Joining what was split gives the value back.
pub proof fn lemma_join_split_u128_u32(x: u128)
    ensures
        join_u128_u32(split_u128_u32(x)) == x,
{
    bits_u128_u32(0, 0, 0, 0, x);
}

/// A `u128` is zero exactly when all four of its words are zero.
pub proof fn lemma_split_u128_u32_zero(x: u128)
    ensures
        x == 0 <==> forall|i: int| 0 <= i < 4 ==> split_u128_u32(x)[i] == 0,
{
    bits_u128_u32(0, 0, 0, 0, x);
    let s = split_u128_u32(x);
    if forall|i: int| 0 <= i < 4 ==> s[i] == 0 {
    }
}

// ---------------------------------------------------------------------------
// The conversions of `devela`
// ---------------------------------------------------------------------------
/// `devela::convert::u16_from_u8_le` joins two bytes, the first being the low
/// byte of the result.
pub assume_specification[ devela::convert::u16_from_u8_le ](v: [u8; 2]) -> (r: u16)
    ensures
        r == join_u16_u8(v@),
;

/// `devela::convert::u32_from_u16_le` joins two 16-bit words, the first being
/// the low half of the result.
pub assume_specification[ devela::convert::u32_from_u16_le ](v: [u16; 2]) -> (r: u32)
    ensures
        r == join_u32_u16(v@),
;

/// `devela::convert::u32_from_u8_le` joins four bytes, the first being the
/// lowest byte of the result.
pub assume_specification[ devela::convert::u32_from_u8_le ](v: [u8; 4]) -> (r: u32)
    ensures
        r == join_u32_u8(v@),
;

/// `devela::convert::u64_from_u32_le` joins two 32-bit words, the first being
/// the low half of the result.
pub assume_specification[ devela::convert::u64_from_u32_le ](v: [u32; 2]) -> (r: u64)
    ensures
        r == join_u64_u32(v@),
;

/// `devela::convert::u64_from_u16_le` joins four 16-bit words, the first being
/// the lowest word of the result.
pub assume_specification[ devela::convert::u64_from_u16_le ](v: [u16; 4]) -> (r: u64)
    ensures
        r == join_u64_u16(v@),
;

/// `devela::convert::u64_from_u8_le` joins eight bytes, the first being the
/// lowest byte of the result.
pub assume_specification[ devela::convert::u64_from_u8_le ](v: [u8; 8]) -> (r: u64)
    ensures
        r == join_u64_u8(v@),
;

/// `devela::convert::u16_into_u8_le` splits a `u16` into its two bytes, low
/// byte first.
pub assume_specification[ devela::convert::u16_into_u8_le ](v: u16) -> (r: [u8; 2])
    ensures
        r@ == split_u16_u8(v),
;

/// `devela::convert::u32_into_u8_le` splits a `u32` into its four bytes,
/// lowest byte first.
pub assume_specification[ devela::convert::u32_into_u8_le ](v: u32) -> (r: [u8; 4])
    ensures
        r@ == split_u32_u8(v),
;

/// `devela::convert::u64_into_u32_le` splits a `u64` into its two 32-bit
/// halves, low half first.
pub assume_specification[ devela::convert::u64_into_u32_le ](v: u64) -> (r: [u32; 2])
    ensures
        r@ == split_u64_u32(v),
;

/// `devela::convert::u128_into_u64_le` splits a `u128` into its two 64-bit
/// halves, low half first.
pub assume_specification[ devela::convert::u128_into_u64_le ](v: u128) -> (r: [u64; 2])
    ensures
        r@ == split_u128_u64(v),
;

/// `devela::convert::u128_into_u32_le` splits a `u128` into its four 32-bit
/// words, lowest word first.
pub assume_specification[ devela::convert::u128_into_u32_le ](v: u128) -> (r: [u32; 4])
    ensures
        r@ == split_u128_u32(v),
;

} // verus!
