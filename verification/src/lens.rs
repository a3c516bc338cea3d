//! Lens lift: embed a constraint about a mandatory sub-part into a
//! constraint about the containing whole.

use std::marker::PhantomData;
use vstd::prelude::*;

use crate::check::Check;
use crate::fact::{sat, Bounds, Fact};
use crate::generator::{Generator, MutationError};
use crate::predicates::EqFact;

verus! {

/// A caller-authored structural accessor for a sub-part that is always
/// present: a pure projection from the whole to the part, and a pure update
/// of the part within the whole, with the two round-trip laws every field
/// accessor obeys.
pub trait Lens<O: Bounds, T: Bounds> {
    /// The part of a whole with model `o`.
    spec fn proj(&self, o: O::M) -> T::M;

    /// The whole with model `o`, its part replaced by one with model `t`.
    spec fn put(&self, o: O::M, t: T::M) -> O::M;

    /// Reading back a freshly written part yields what was written.
    proof fn put_proj(&self, o: O::M, t: T::M)
        ensures
            self.proj(self.put(o, t)) == t,
    ;

    /// Writing back the part a whole already has changes nothing.
    proof fn put_id(&self, o: O::M)
        ensures
            self.put(o, self.proj(o)) == o,
    ;

    /// Extract a copy of the part.
    fn get_part(&self, o: &O) -> (t: T)
        ensures
            t.model() == self.proj(o.model()),
    ;

    /// Replace the part within the whole.
    fn set_part(&self, o: O, t: T) -> (r: O)
        ensures
            r.model() == self.put(o.model(), t.model()),
    ;
}

/// Applies a fact to a subset of some data by means of a lens. In other
/// words, if type `O` contains a `T`, and you have a fact about `T`,
/// [`LensFact`] lets you lift that constraint into a constraint about `O`.
pub struct LensFact<O, T, L, F> {
    /// The label prefixed to every violation of the inner fact.
    pub tag: String,
    /// The accessor reaching the sub-part.
    pub lens: L,
    /// The fact about the sub-part.
    pub inner: F,
    /// Marker tying the lift to its subject types.
    pub phantom: PhantomData<(O, T)>,
}

/// Lift `inner`, a fact about a sub-part reached through `lens`, into a fact
/// about the whole. Violations are prefixed with `label`.
pub fn lens<O, T, L, F>(label: &str, accessor: L, inner: F) -> (f: LensFact<O, T, L, F>)
    where O: Bounds, T: Bounds, L: Lens<O, T>, F: Fact<T>,
    ensures
        f.lens == accessor,
        f.inner == inner,
        f.tag@ == "lens("@ + label@ + ") > "@,
{
    LensFact::new(label, accessor, inner)
}

impl<O: Bounds, T: Bounds, L: Lens<O, T>, F: Fact<T>> LensFact<O, T, L, F> {
    /// Constructor. Supply a lens and an existing fact to create a new fact.
    pub fn new(label: &str, accessor: L, inner: F) -> (f: LensFact<O, T, L, F>)
        ensures
            f.lens == accessor,
            f.inner == inner,
            f.tag@ == "lens("@ + label@ + ") > "@,
    {
        let tag = "lens(".to_owned().concat(label).concat(") > ");
        LensFact { tag, lens: accessor, inner, phantom: PhantomData }
    }
}

impl<O: Bounds, T: Bounds, L: Lens<O, T>, F: Fact<T>> Fact<O> for LensFact<O, T, L, F> {
    open spec fn errs(&self, m: O::M) -> Seq<Seq<char>> {
        self.inner.errs(self.lens.proj(m)).map(|i: int, e: Seq<char>| self.tag@ + e)
    }

    open spec fn forces(&self) -> bool {
        self.inner.forces()
    }

    open spec fn step(self, m: O::M) -> Self {
        LensFact {
            tag: self.tag,
            lens: self.lens,
            inner: self.inner.step(self.lens.proj(m)),
            phantom: self.phantom,
        }
    }

    fn mutate(&self, obj: O, g: &mut Generator) -> (r: Result<O, MutationError>)
        ensures
            r matches Ok(v) ==> exists|t: T::M| v.model() == self.lens.put(obj.model(), t),
    {
        let part = self.lens.get_part(&obj);
        proof {
            self.lens.put_id(obj.model());
        }
        match self.inner.mutate(part, g) {
            Ok(t2) => {
                let r = self.lens.set_part(obj, t2);
                proof {
                    self.lens.put_proj(obj.model(), t2.model());
                }
                Ok(r)
            },
            Err(MutationError::Rejected(s)) => {
                let tagged = self.tag.as_str().to_owned().concat(s.as_str());
                Err(MutationError::Rejected(tagged))
            },
            Err(e) => Err(e),
        }
    }

    fn check(&self, obj: &O) -> (c: Check) {
        let part = self.lens.get_part(obj);
        let c = self.inner.check(&part).prefix(self.tag.as_str());
        proof {
            assert(c@ =~= self.errs(obj.model()));
        }
        c
    }

    fn advance(&mut self, obj: &O) {
        let part = self.lens.get_part(obj);
        self.inner.advance(&part);
    }
}

/// Law: lifting an equality constraint on a sub-part through a lens yields a
/// constraint satisfied exactly when that sub-part equals the constant.
pub proof fn lemma_lens_eq_sat<O, T, L>(f: LensFact<O, T, L, EqFact<T>>, m: O::M)
    where O: Bounds, T: Bounds, L: Lens<O, T>,
    requires
        f.inner.op is Equal,
    ensures
        sat(f, m) <==> f.lens.proj(m) == f.inner.constant.model(),
{
}

} // verus!
