//! Optical lift: the generalization of lens and prism to zero-to-many
//! sub-parts (a traversal).

use std::marker::PhantomData;
use vstd::prelude::*;

use crate::check::{dec_seq, dec_string, Check};
use crate::fact::{steps, Bounds, Fact};
use crate::generator::{Generator, MutationError};

verus! {

/// A caller-authored traversal: a pure, repeatable projection from a whole
/// to an ordered family of sub-parts, and a pure per-position update, with
/// the two round-trip laws every such accessor obeys.
pub trait Optics<O: Bounds, T: Bounds> {
    /// The targeted parts of a whole with model `o`, in traversal order.
    spec fn targets(&self, o: O::M) -> Seq<T::M>;

    /// The whole with model `o`, its target at position `i` replaced by one
    /// with model `t`.
    spec fn put_at(&self, o: O::M, i: int, t: T::M) -> O::M;

    /// Writing one target leaves the family of targets otherwise unchanged.
    proof fn put_at_targets(&self, o: O::M, i: int, t: T::M)
        requires
            0 <= i < self.targets(o).len(),
        ensures
            self.targets(self.put_at(o, i, t)) == self.targets(o).update(i, t),
    ;

    /// Writing back the target a whole already has changes nothing.
    proof fn put_at_id(&self, o: O::M, i: int)
        requires
            0 <= i < self.targets(o).len(),
        ensures
            self.put_at(o, i, self.targets(o)[i]) == o,
    ;

    /// How many targets the traversal finds.
    fn count(&self, o: &O) -> (n: usize)
        ensures
            n == self.targets(o.model()).len(),
    ;

    /// Extract a copy of the target at position `i`.
    fn get_at(&self, o: &O, i: usize) -> (t: T)
        requires
            i < self.targets(o.model()).len(),
        ensures
            t.model() == self.targets(o.model())[i as int],
    ;

    /// Replace the target at position `i` within the whole.
    fn set_at(&self, o: O, i: usize, t: T) -> (r: O)
        requires
            i < self.targets(o.model()).len(),
        ensures
            r.model() == self.put_at(o.model(), i as int, t.model()),
    ;
}

/// The label prefixed to violations of the target at position `i`; the
/// position is included only when the traversal finds more than one target.
pub open spec fn elem_tag(label: Seq<char>, i: int, many: bool) -> Seq<char> {
    if many {
        "lens("@ + label + "["@ + dec_seq(i as nat) + "]) > "@
    } else {
        "lens("@ + label + ") > "@
    }
}

fn elem_tag_string(label: &str, i: usize, many: bool) -> (s: String)
    ensures
        s@ == elem_tag(label@, i as int, many),
{
    let mut s = "lens(".to_owned();
    s.append(label);
    if many {
        s.append("[");
        s.append(dec_string(i).as_str());
        s.append("]) > ");
    } else {
        s.append(") > ");
    }
    proof {
        assert(s@ =~= elem_tag(label@, i as int, many));
    }
    s
}

/// The whole `o` with its targets at positions `0..ts.len()` replaced, in
/// order, by the elements of `ts`.
pub open spec fn put_seq<O: Bounds, T: Bounds, X: Optics<O, T>>(x: X, o: O::M, ts: Seq<T::M>) -> O::M
    decreases ts.len(),
{
    if ts.len() == 0 {
        o
    } else {
        x.put_at(put_seq(x, o, ts.drop_last()), ts.len() - 1, ts.last())
    }
}

/// A fact which uses a traversal to apply another fact to each of the
/// targets independently, in traversal order, each target's outcome
/// depending only on the original whole. Use [`optical()`] to construct.
pub struct OpticalFact<O, T, X, F> {
    /// The label prefixed to every violation of the inner fact.
    pub label: String,
    /// The traversal reaching the sub-parts.
    pub optics: X,
    /// The fact about each sub-part.
    pub inner: F,
    /// Marker tying the lift to its subject types.
    pub phantom: PhantomData<(O, T)>,
}

/// Lift `inner`, a fact about the targets of the traversal `optics`, into a
/// fact about the whole: every target must satisfy it.
pub fn optical<O, T, X, F>(label: &str, optics: X, inner: F) -> (f: OpticalFact<O, T, X, F>)
    where O: Bounds, T: Bounds, X: Optics<O, T>, F: Fact<T>,
    ensures
        f.optics == optics,
        f.inner == inner,
        f.label@ == label@,
{
    OpticalFact::new(label, optics, inner)
}

impl<O: Bounds, T: Bounds, X: Optics<O, T>, F: Fact<T>> OpticalFact<O, T, X, F> {
    /// Constructor. Supply a traversal and an existing fact to create a new
    /// fact.
    pub fn new(label: &str, optics: X, inner: F) -> (f: OpticalFact<O, T, X, F>)
        ensures
            f.optics == optics,
            f.inner == inner,
            f.label@ == label@,
    {
        OpticalFact { label: label.to_owned(), optics, inner, phantom: PhantomData }
    }

    /// The tagged violations of the targets from position `i` on.
    pub open spec fn errs_from(&self, ts: Seq<T::M>, i: int, many: bool) -> Seq<Seq<char>>
        decreases ts.len() - i,
    {
        if 0 <= i < ts.len() {
            self.inner.errs(ts[i]).map(|j: int, e: Seq<char>| elem_tag(self.label@, i, many) + e)
                + self.errs_from(ts, i + 1, many)
        } else {
            Seq::empty()
        }
    }

    proof fn lemma_errs_from_all_sat(&self, ts: Seq<T::M>, i: int, many: bool)
        requires
            forall|k: int| i <= k < ts.len() ==> self.inner.errs(#[trigger] ts[k]).len() == 0,
        ensures
            self.errs_from(ts, i, many).len() == 0,
        decreases ts.len() - i,
    {
        if 0 <= i < ts.len() {
            self.lemma_errs_from_all_sat(ts, i + 1, many);
        }
    }

    proof fn lemma_errs_from_first(&self, ts: Seq<T::M>, i: int, j: int, many: bool)
        requires
            0 <= i <= j < ts.len(),
            forall|k: int| i <= k < j ==> self.inner.errs(#[trigger] ts[k]).len() == 0,
            self.inner.errs(ts[j]).len() > 0,
        ensures
            self.errs_from(ts, i, many).len() > 0,
            self.errs_from(ts, i, many)[0] == elem_tag(self.label@, j, many) + self.inner.errs(
                ts[j],
            )[0],
        decreases j - i,
    {
        if i < j {
            self.lemma_errs_from_first(ts, i + 1, j, many);
        }
    }
}

impl<O: Bounds, T: Bounds, X: Optics<O, T>, F: Fact<T>> Fact<O> for OpticalFact<O, T, X, F> {
    open spec fn errs(&self, m: O::M) -> Seq<Seq<char>> {
        let ts = self.optics.targets(m);
        self.errs_from(ts, 0, ts.len() > 1)
    }

    open spec fn forces(&self) -> bool {
        self.inner.forces()
    }

    open spec fn step(self, m: O::M) -> Self {
        OpticalFact {
            label: self.label,
            optics: self.optics,
            inner: steps(self.inner, self.optics.targets(m)),
            phantom: self.phantom,
        }
    }

    fn mutate(&self, obj: O, g: &mut Generator) -> (r: Result<O, MutationError>)
        ensures
            r matches Ok(v) ==> self.optics.targets(v.model()).len() == self.optics.targets(
                obj.model(),
            ).len(),
            r matches Ok(v) ==> exists|ts: Seq<T::M>|
                ts.len() == self.optics.targets(obj.model()).len() && v.model() == put_seq(
                    self.optics,
                    obj.model(),
                    ts,
                ),
    {
        let ghost m0 = obj.model();
        let ghost ts0 = self.optics.targets(m0);
        let ghost mut applied: Seq<T::M> = Seq::empty();
        let n = self.optics.count(&obj);
        let many = n > 1;
        let mut cur = obj;
        let mut i: usize = 0;
        while i < n
            invariant
                g.checking() == old(g).checking(),
                i <= n,
                obj.model() == m0,
                ts0 == self.optics.targets(m0),
                n == ts0.len(),
                many == (ts0.len() > 1),
                self.optics.targets(cur.model()).len() == ts0.len(),
                applied.len() == i,
                cur.model() == put_seq(self.optics, m0, applied),
                forall|k: int|
                    i <= k < n ==> #[trigger] self.optics.targets(cur.model())[k] == ts0[k],
                g.checking() ==> cur.model() == m0,
                self.inner.forces() ==> forall|k: int|
                    0 <= k < i ==> self.inner.errs(
                        #[trigger] self.optics.targets(cur.model())[k],
                    ).len() == 0,
                g.checking() ==> forall|k: int|
                    0 <= k < i ==> self.inner.errs(#[trigger] ts0[k]).len() == 0,
            decreases n - i,
        {
            let t = self.optics.get_at(&cur, i);
            proof {
                self.optics.put_at_id(cur.model(), i as int);
            }
            match self.inner.mutate(t, g) {
                Ok(t2) => {
                    let ghost t2m = t2.model();
                    proof {
                        self.optics.put_at_targets(cur.model(), i as int, t2.model());
                        assert(applied.push(t2m).drop_last() =~= applied);
                    }
                    cur = self.optics.set_at(cur, i, t2);
                    proof {
                        applied = applied.push(t2m);
                    }
                },
                Err(MutationError::Rejected(s)) => {
                    proof {
                        if g.checking() {
                            assert(t.model() == ts0[i as int]);
                            assert(self.inner.errs(ts0[i as int]).len() > 0);
                            self.lemma_errs_from_first(ts0, 0, i as int, many);
                        }
                    }
                    let tag = elem_tag_string(self.label.as_str(), i, many);
                    return Err(MutationError::Rejected(tag.concat(s.as_str())));
                },
                Err(e) => {
                    return Err(e);
                },
            }
            i = i + 1;
        }
        proof {
            if g.checking() || self.inner.forces() {
                self.lemma_errs_from_all_sat(
                    self.optics.targets(cur.model()),
                    0,
                    self.optics.targets(cur.model()).len() > 1,
                );
            }
            if g.checking() {
                self.lemma_errs_from_all_sat(ts0, 0, many);
            }
            assert(cur.model() == put_seq(self.optics, m0, applied));
        }
        Ok(cur)
    }

    fn check(&self, obj: &O) -> (c: Check) {
        let ghost ts = self.optics.targets(obj.model());
        let n = self.optics.count(obj);
        let many = n > 1;
        let mut acc = Check::empty();
        let mut i: usize = 0;
        while i < n
            invariant
                i <= n,
                n == ts.len(),
                many == (ts.len() > 1),
                ts == self.optics.targets(obj.model()),
                acc@ + self.errs_from(ts, i as int, many) == self.errs_from(ts, 0, many),
            decreases n - i,
        {
            let t = self.optics.get_at(obj, i);
            let tag = elem_tag_string(self.label.as_str(), i, many);
            let ci = self.inner.check(&t).prefix(tag.as_str());
            proof {
                assert(ci@ =~= self.inner.errs(ts[i as int]).map(
                    |j: int, e: Seq<char>| elem_tag(self.label@, i as int, many) + e,
                ));
                assert((acc@ + ci@) + self.errs_from(ts, i + 1, many) =~= acc@ + self.errs_from(
                    ts,
                    i as int,
                    many,
                ));
            }
            acc = acc.and(ci);
            i = i + 1;
        }
        proof {
            assert(acc@ =~= self.errs(obj.model()));
        }
        acc
    }

    fn advance(&mut self, obj: &O) {
        let ghost ts = self.optics.targets(obj.model());
        let ghost inner0 = self.inner;
        let n = self.optics.count(obj);
        let mut i: usize = 0;
        while i < n
            invariant
                i <= n,
                n == ts.len(),
                self.optics == old(self).optics,
                self.label == old(self).label,
                self.phantom == old(self).phantom,
                ts == self.optics.targets(obj.model()),
                self.inner == steps(inner0, ts.take(i as int)),
            decreases n - i,
        {
            let t = self.optics.get_at(obj, i);
            proof {
                crate::fact::lemma_walk_push(inner0, ts.take(i as int), ts[i as int]);
                assert(ts.take(i + 1) =~= ts.take(i as int).push(ts[i as int]));
            }
            self.inner.advance(&t);
            i = i + 1;
        }
        proof {
            assert(ts.take(n as int) =~= ts);
        }
    }
}

} // verus!
