//! Composable constraints ("facts") for coercing data into a certain shape,
//! or for verifying the shape of existing data.
//!
//! A [`Fact`](fact::Fact) is a declarative constraint over a value type. The
//! same declaration serves two purposes: `check` verifies that a value
//! satisfies the constraint, and `mutate`/`satisfy`/`build` draw entropy from
//! a [`Generator`](generator::Generator) to synthesize or repair a value so
//! that it satisfies the constraint. Checking is a replay of mutation under a
//! generator that refuses to introduce randomness, so the two can never
//! drift apart.

mod check;
mod fact;
mod facts;
mod generator;
mod lens;
mod optical;
mod predicates;
mod prism;
pub mod sample;
mod stateful;

pub use check::{dec_seq, dec_string, item_tag, item_tag_string, Check};
pub use fact::{
    and, build_seq, check_seq, lemma_walk_errs_empty, lemma_walk_push, models, sat, seq_sat,
    steps, walk_errs, AndFact, Bounds, Fact, Fatal, SATISFY_ATTEMPTS,
};
pub use facts::{
    brute, brute_labeled, in_slice, in_slice_, BruteFact, Predicate, BRUTE_ITERATION_LIMIT,
};
pub use generator::{Generator, Mode, MutationError};
pub use lens::{lemma_lens_eq_sat, lens, Lens, LensFact};
pub use optical::{elem_tag, optical, put_seq, Optics, OpticalFact};
pub use predicates::{
    eq, eq_, in_iter, lemma_eq_sat, lemma_in_sat, ne, ne_, or, EqFact, EqOp, InFact, OrFact,
};
pub use prism::{lemma_prism_absent_sat, prism, Prism, PrismFact};
pub use stateful::{consecutive, succ_of, Consecutive};
