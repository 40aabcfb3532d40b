//! Miscellaneous pseudo-random number generators.

mod mult13p1;

pub use mult13p1::{
    lemma_mult13p1_injective, lemma_mult13p1_moves, mult13p1, mult13p1_nth, mult13p1_outputs, Mult13P1, MULT13P1_DEFAULT_SEED,
};
