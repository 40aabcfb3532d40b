//! Generators based on the XorShift recurrence.
//!
//! - classic XorShift algorithms: [`XorShift32`], [`XorShift64`],
//!   [`XorShift128`], [`XorShift128p`];
//! - variations with a smaller state: [`XorShift16`], [`XorShift8`],
//!   [`XorShift8Custom`], [`XorShift8Gen`];
//! - other generators loosely based on XorShift: [`Xyza8a`], [`Xyza8b`].
//!
//! The state of a classic generator is never all zero: that state is a fixed
//! point of the recurrence, and no other state leads to it.

mod generic;
mod x128;
mod x16;
mod x32;
mod x64;
mod x8;
mod xyza8;

pub use generic::XorShift8Gen;
pub use x128::{
    all_zero2, all_zero4, lemma_xorshift128_injective, lemma_xorshift128_nth_nonzero,
    lemma_xorshift128_zero, lemma_xorshift128p_injective, lemma_xorshift128p_nth_nonzero,
    lemma_xorshift128p_zero, rotate_left64, xorshift128, xorshift128_nth, xorshift128_output,
    xorshift128_outputs, xorshift128p, xorshift128p_nth, xorshift128p_output,
    xorshift128p_outputs, XorShift128, XorShift128p,
};
pub use x16::{
    lemma_xorshift16_injective, lemma_xorshift16_nth_nonzero, lemma_xorshift16_zero, xorshift16,
    xorshift16_bytes, xorshift16_nth, xorshift16_outputs, XorShift16, XORSHIFT16_DEFAULT_SEED,
};
pub use x32::{
    lemma_xorshift32_injective, lemma_xorshift32_nth_nonzero, lemma_xorshift32_zero, xorshift32,
    xorshift32_bytes, xorshift32_nth, xorshift32_outputs, XorShift32, XORSHIFT32_DEFAULT_SEED,
};
pub use x64::{
    lemma_xorshift64_injective, lemma_xorshift64_nth_nonzero, lemma_xorshift64_zero, xorshift64,
    xorshift64_nth, xorshift64_outputs, XorShift64, XORSHIFT64_DEFAULT_SEED,
};
pub use x8::{
    lemma_xorshift8_with_injective, lemma_xorshift8_with_nth_nonzero, lemma_xorshift8_with_zero,
    valid_shifts8, xorshift8, xorshift8_nth, xorshift8_outputs, xorshift8_with,
    xorshift8_with_nth, xorshift8_with_outputs, XorShift8, XorShift8Custom,
    XORSHIFT8_DEFAULT_SEED,
};
pub use xyza8::{
    lemma_xyza8a_injective, lemma_xyza8b_injective, xyza8a, xyza8a_nth, xyza8a_outputs, xyza8b,
    xyza8b_nth, xyza8b_outputs, Xyza8a, Xyza8b, XYZA8_DEFAULT_SEED,
};
