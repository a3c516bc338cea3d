use vstd::prelude::*;

use crate::check::Check;
use crate::fact::{Bounds, Fact};
use crate::generator::{Generator, MutationError};

verus! {

/// Iteration ceiling for brute-force mutation; exceeding it is a terminal
/// failure, never a hang.
pub const BRUTE_ITERATION_LIMIT: usize = 100;

/// A caller-authored predicate over a subject type, reflected to the
/// subject's model. The test may report a value-specific failure reason.
pub trait Predicate<T: Bounds> {
    /// Whether the predicate holds of a value with model `m`.
    spec fn holds(&self, m: T::M) -> bool;

    /// The failure reason reported for a value with model `m`.
    spec fn reason(&self, m: T::M) -> Seq<char>;

    /// Test the predicate; on failure, return the reason.
    fn test(&self, obj: &T) -> (r: Result<(), String>)
        ensures
            r is Ok <==> self.holds(obj.model()),
            r matches Err(s) ==> s@ == self.reason(obj.model()),
    ;
}

/// A constraint defined only by a predicate. Mutation occurs by brute
/// force, redrawing wholly new arbitrary values until one matches the
/// predicate, bounded by [`BRUTE_ITERATION_LIMIT`].
///
/// This is appropriate when the predicate has non-negligible density over
/// arbitrary values, e.g. when requiring a particular enum variant; no
/// directed steering exists beyond resampling.
///
/// It is usually best to place this constraint at the beginning of a
/// pipeline: because resampling discards the whole value, a brute
/// constraint run late may drastically alter the data, undoing constraints
/// that were met by earlier members. That hazard is the price of strict
/// left-to-right pipelining, which other constraint sets rely on.
pub struct BruteFact<T, P> {
    /// The fixed violation message; when absent, the predicate's own
    /// per-value reason is reported.
    pub context: Option<String>,
    /// The predicate.
    pub pred: P,
    /// Marker tying the constraint to its subject type.
    pub phantom: core::marker::PhantomData<T>,
}

impl<T: Bounds, P: Predicate<T>> BruteFact<T, P> {
    /// The message reported when the predicate rejects a value with model
    /// `m`.
    pub open spec fn message(&self, m: T::M) -> Seq<char> {
        match self.context {
            Some(c) => c@,
            None => self.pred.reason(m),
        }
    }
}

/// Predicate constraint with a fixed failure message.
pub fn brute<T: Bounds, P: Predicate<T>>(context: &str, pred: P) -> (f: BruteFact<T, P>)
    ensures
        f.pred == pred,
        f.context matches Some(c) && c@ == context@,
{
    BruteFact { context: Some(context.to_owned()), pred, phantom: core::marker::PhantomData }
}

/// A version of [`brute`] which lets the predicate supply the reason for
/// each failure.
pub fn brute_labeled<T: Bounds, P: Predicate<T>>(pred: P) -> (f: BruteFact<T, P>)
    ensures
        f.pred == pred,
        f.context is None,
{
    BruteFact { context: None, pred, phantom: core::marker::PhantomData }
}

impl<T: Bounds, P: Predicate<T>> Fact<T> for BruteFact<T, P> {
    open spec fn errs(&self, m: T::M) -> Seq<Seq<char>> {
        if self.pred.holds(m) {
            Seq::empty()
        } else {
            seq![self.message(m)]
        }
    }

    open spec fn forces(&self) -> bool {
        true
    }

    open spec fn step(self, m: T::M) -> Self {
        self
    }

    fn mutate(&self, obj: T, g: &mut Generator) -> (r: Result<T, MutationError>)
        ensures
            self.context matches Some(c) ==> (r matches Err(
                MutationError::BruteForceExceeded(s),
            ) ==> s@ == c@),
            self.pred.holds(obj.model()) ==> (r matches Ok(v) && v.model() == obj.model())
                && final(g).rest() == old(g).rest(),
    {
        let mut cur = obj;
        let mut tries: usize = 0;
        loop
            invariant
                g.checking() == old(g).checking(),
                tries <= BRUTE_ITERATION_LIMIT,
                g.checking() ==> tries == 0 && cur.model() == obj.model(),
                self.pred.holds(obj.model()) ==> tries == 0 && cur.model() == obj.model()
                    && g.rest() == old(g).rest(),
            decreases BRUTE_ITERATION_LIMIT - tries,
        {
            let why: String = match self.pred.test(&cur) {
                Ok(()) => {
                    return Ok(cur);
                },
                Err(s) => s,
            };
            let msg: &str = match &self.context {
                Some(c) => c.as_str(),
                None => why.as_str(),
            };
            if tries == BRUTE_ITERATION_LIMIT {
                return Err(MutationError::BruteForceExceeded(msg.to_owned()));
            }
            cur = match T::generate(g, msg) {
                Ok(v) => v,
                Err(e) => {
                    return Err(e);
                },
            };
            tries = tries + 1;
        }
    }

    fn check(&self, obj: &T) -> (c: Check) {
        // Replay `mutate` under a CheckOnly generator: the mutation itself is
        // the single source of truth for what this constraint means.
        let mut g = Generator::checker();
        let c = Check::from_result(self.mutate(obj.dup(), &mut g));
        proof {
            assert(c@ =~= self.errs(obj.model()));
        }
        c
    }

    fn advance(&mut self, obj: &T) {
    }
}

} // verus!
