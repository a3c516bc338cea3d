//! Constraints built from caller-supplied predicates and borrowed candidate
//! slices.

mod brute;
mod in_slice;

pub use brute::{brute, brute_labeled, BruteFact, Predicate, BRUTE_ITERATION_LIMIT};
pub use in_slice::{in_slice, in_slice_};
