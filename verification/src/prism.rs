//! Prism lift: embed a constraint about an optionally-present sub-part
//! (typically an enum variant's payload) into a constraint about the whole,
//! vacuous when the part is absent.

use std::marker::PhantomData;
use vstd::prelude::*;

use crate::check::Check;
use crate::fact::{sat, Bounds, Fact};
use crate::generator::{Generator, MutationError};

verus! {

/// A caller-authored structural accessor for a sub-part that may or may not
/// exist, e.g. the payload of one variant of an enum.
pub trait Prism<O: Bounds, T: Bounds> {
    /// The part of a whole with model `o`, if it is present.
    spec fn peek(&self, o: O::M) -> Option<T::M>;

    /// The whole with model `o`, its present part replaced by one with
    /// model `t`.
    spec fn put(&self, o: O::M, t: T::M) -> O::M;

    /// Reading back a freshly written part yields what was written.
    proof fn put_peek(&self, o: O::M, t: T::M)
        requires
            self.peek(o) is Some,
        ensures
            self.peek(self.put(o, t)) == Some(t),
    ;

    /// Writing back the part a whole already has changes nothing.
    proof fn put_id(&self, o: O::M)
        requires
            self.peek(o) is Some,
        ensures
            self.put(o, self.peek(o)->0) == o,
    ;

    /// Extract a copy of the part, when present.
    fn get_part(&self, o: &O) -> (t: Option<T>)
        ensures
            match t {
                Some(v) => self.peek(o.model()) == Some(v.model()),
                None => self.peek(o.model()) is None,
            },
    ;

    /// Replace the present part within the whole.
    fn set_part(&self, o: O, t: T) -> (r: O)
        requires
            self.peek(o.model()) is Some,
        ensures
            r.model() == self.put(o.model(), t.model()),
    ;
}

/// Applies a fact to a subset of some data by means of a prism. A prism is
/// like a lens, except that the target value may or may not exist. If the
/// prism finds the part, the inner constraint is checked and mutation is
/// possible; if it does not, checks and mutations do not occur.
pub struct PrismFact<O, T, P, F> {
    /// The label prefixed to every violation of the inner fact.
    pub tag: String,
    /// The accessor reaching the optional sub-part.
    pub prism: P,
    /// The fact about the sub-part.
    pub inner: F,
    /// Marker tying the lift to its subject types.
    pub phantom: PhantomData<(O, T)>,
}

/// Lift `inner`, a fact about an optionally-present sub-part reached through
/// `prism`, into a fact about the whole, vacuous when the part is absent.
/// Violations are prefixed with `label`.
pub fn prism<O, T, P, F>(label: &str, accessor: P, inner: F) -> (f: PrismFact<O, T, P, F>)
    where O: Bounds, T: Bounds, P: Prism<O, T>, F: Fact<T>,
    ensures
        f.prism == accessor,
        f.inner == inner,
        f.tag@ == "prism("@ + label@ + ") > "@,
{
    PrismFact::new(label, accessor, inner)
}

impl<O: Bounds, T: Bounds, P: Prism<O, T>, F: Fact<T>> PrismFact<O, T, P, F> {
    /// Constructor. Supply a prism and an existing fact to create a new fact.
    pub fn new(label: &str, accessor: P, inner: F) -> (f: PrismFact<O, T, P, F>)
        ensures
            f.prism == accessor,
            f.inner == inner,
            f.tag@ == "prism("@ + label@ + ") > "@,
    {
        let tag = "prism(".to_owned().concat(label).concat(") > ");
        PrismFact { tag, prism: accessor, inner, phantom: PhantomData }
    }
}

impl<O: Bounds, T: Bounds, P: Prism<O, T>, F: Fact<T>> Fact<O> for PrismFact<O, T, P, F> {
    open spec fn errs(&self, m: O::M) -> Seq<Seq<char>> {
        match self.prism.peek(m) {
            Some(tm) => self.inner.errs(tm).map(|i: int, e: Seq<char>| self.tag@ + e),
            None => Seq::empty(),
        }
    }

    open spec fn forces(&self) -> bool {
        self.inner.forces()
    }

    open spec fn step(self, m: O::M) -> Self {
        match self.prism.peek(m) {
            Some(tm) => PrismFact {
                tag: self.tag,
                prism: self.prism,
                inner: self.inner.step(tm),
                phantom: self.phantom,
            },
            None => self,
        }
    }

    fn mutate(&self, obj: O, g: &mut Generator) -> (r: Result<O, MutationError>)
        ensures
            self.prism.peek(obj.model()) is None ==> (r matches Ok(v) && v.model()
                == obj.model()) && final(g).rest() == old(g).rest(),
            self.prism.peek(obj.model()) is Some ==> (r matches Ok(v) ==> exists|t: T::M|
                v.model() == self.prism.put(obj.model(), t)),
    {
        match self.prism.get_part(&obj) {
            None => Ok(obj),
            Some(part) => {
                proof {
                    self.prism.put_id(obj.model());
                }
                match self.inner.mutate(part, g) {
                    Ok(t2) => {
                        let r = self.prism.set_part(obj, t2);
                        proof {
                            self.prism.put_peek(obj.model(), t2.model());
                        }
                        Ok(r)
                    },
                    Err(MutationError::Rejected(s)) => {
                        let tagged = self.tag.as_str().to_owned().concat(s.as_str());
                        Err(MutationError::Rejected(tagged))
                    },
                    Err(e) => Err(e),
                }
            },
        }
    }

    fn check(&self, obj: &O) -> (c: Check) {
        match self.prism.get_part(obj) {
            None => Check::empty(),
            Some(part) => {
                let c = self.inner.check(&part).prefix(self.tag.as_str());
                proof {
                    assert(c@ =~= self.errs(obj.model()));
                }
                c
            },
        }
    }

    fn advance(&mut self, obj: &O) {
        match self.prism.get_part(obj) {
            None => {
            },
            Some(part) => {
                self.inner.advance(&part);
            },
        }
    }
}

/// Law: when the targeted part is absent, a prism-lifted constraint is
/// vacuously satisfied, whatever the inner constraint demands. (The
/// companion guarantee, that mutation is then a no-op, is an `ensures` of
/// [`PrismFact`]'s `mutate`.)
pub proof fn lemma_prism_absent_sat<O, T, P, F>(f: PrismFact<O, T, P, F>, m: O::M)
    where O: Bounds, T: Bounds, P: Prism<O, T>, F: Fact<T>,
    requires
        f.prism.peek(m) is None,
    ensures
        sat(f, m),
{
}

} // verus!
