//! Small deterministic pseudo-random number generators built on the
//! XorShift recurrence and close relatives.
//!
//! Every generator is a value type over a fixed-width state. A step is a
//! pure function of that state, stated here as a spec function, and each
//! executable method is proved to compute exactly that function.

pub mod endian;
pub mod misc;
pub mod xorshift;
