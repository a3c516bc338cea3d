//! Primitive value constraints: equality, inequality, membership, and
//! disjunction.

use std::marker::PhantomData;
use vstd::prelude::*;

use crate::check::Check;
use crate::fact::{sat, Bounds, Fact};
use crate::generator::{Generator, MutationError};

verus! {

/// Whether an [`EqFact`] demands equality or inequality with its constant.
pub enum EqOp {
    Equal,
    NotEqual,
}

/// Constraint that a value equal (or not equal) a constant.
pub struct EqFact<T> {
    /// The violation message reported when the comparison fails.
    pub context: String,
    /// Equality or inequality.
    pub op: EqOp,
    /// The constant compared against.
    pub constant: T,
}

/// Constraint that the value be equal to `constant`.
pub fn eq<T: Bounds>(context: &str, constant: T) -> (f: EqFact<T>)
    ensures
        f.op is Equal,
        f.constant == constant,
        f.context@ == context@,
{
    EqFact { context: context.to_owned(), op: EqOp::Equal, constant }
}

/// [`eq`] with a default message.
pub fn eq_<T: Bounds>(constant: T) -> (f: EqFact<T>)
    ensures
        f.op is Equal,
        f.constant == constant,
        f.context@ == "eq"@,
{
    eq("eq", constant)
}

/// Constraint that the value be unequal to `constant`.
pub fn ne<T: Bounds>(context: &str, constant: T) -> (f: EqFact<T>)
    ensures
        f.op is NotEqual,
        f.constant == constant,
        f.context@ == context@,
{
    EqFact { context: context.to_owned(), op: EqOp::NotEqual, constant }
}

/// [`ne`] with a default message.
pub fn ne_<T: Bounds>(constant: T) -> (f: EqFact<T>)
    ensures
        f.op is NotEqual,
        f.constant == constant,
        f.context@ == "ne"@,
{
    ne("ne", constant)
}

impl<T: Bounds> Fact<T> for EqFact<T> {
    open spec fn errs(&self, m: T::M) -> Seq<Seq<char>> {
        let pass = match self.op {
            EqOp::Equal => m == self.constant.model(),
            EqOp::NotEqual => m != self.constant.model(),
        };
        if pass {
            Seq::empty()
        } else {
            seq![self.context@]
        }
    }

    open spec fn forces(&self) -> bool {
        true
    }

    open spec fn step(self, m: T::M) -> Self {
        self
    }

    fn mutate(&self, obj: T, g: &mut Generator) -> (r: Result<T, MutationError>)
        ensures
            self.op is Equal ==> (r matches Ok(v) ==> v.model() == self.constant.model()),
            self.op is NotEqual ==> (r matches Ok(v) ==> v.model() != self.constant.model()),
            self.op is Equal ==> final(g).rest() == old(g).rest(),
            self.op is Equal && !old(g).checking() ==> r is Ok,
            self.errs(obj.model()).len() == 0 ==> (r matches Ok(v) && v.model() == obj.model())
                && final(g).rest() == old(g).rest(),
    {
        match self.op {
            EqOp::Equal => {
                if obj.same(&self.constant) {
                    Ok(obj)
                } else {
                    g.set_to(&self.constant, self.context.as_str())
                }
            },
            EqOp::NotEqual => {
                if !obj.same(&self.constant) {
                    Ok(obj)
                } else {
                    let mut res: Result<T, MutationError> = Err(MutationError::Exhausted);
                    loop
                        invariant
                            g.checking() == old(g).checking(),
                        ensures
                            g.checking() == old(g).checking(),
                            res matches Ok(v) ==> v.model() != self.constant.model(),
                            old(g).checking() ==> (res matches Err(MutationError::Rejected(s))
                                && s@ == self.context@),
                            !old(g).checking() ==> (res matches Err(e) ==> e is Exhausted),
                        decreases g.rest().len(),
                    {
                        match T::generate(g, self.context.as_str()) {
                            Ok(v) => {
                                if !v.same(&self.constant) {
                                    res = Ok(v);
                                    break ;
                                }
                            },
                            Err(e) => {
                                res = Err(e);
                                break ;
                            },
                        }
                    }
                    res
                }
            },
        }
    }

    fn check(&self, obj: &T) -> (c: Check) {
        // Replay `mutate` under a CheckOnly generator: the mutation itself is
        // the single source of truth for what this constraint means.
        let mut g = Generator::checker();
        let c = Check::from_result(self.mutate(obj.dup(), &mut g));
        proof {
            assert(c@ =~= self.errs(obj.model()));
        }
        c
    }

    fn advance(&mut self, obj: &T) {
    }
}

/// Law: an equality constraint is satisfied exactly by values equal to the
/// constant, and an inequality constraint exactly by values different from
/// it.
pub proof fn lemma_eq_sat<T: Bounds>(f: EqFact<T>, m: T::M)
    ensures
        f.op is Equal ==> (sat(f, m) <==> m == f.constant.model()),
        f.op is NotEqual ==> (sat(f, m) <==> m != f.constant.model()),
{
}

/// Constraint that a value belong to a finite, non-empty candidate set
/// supplied at construction.
pub struct InFact<T> {
    context: String,
    items: Vec<T>,
}

impl<T> InFact<T> {
    #[verifier::type_invariant]
    spec fn non_empty(self) -> bool {
        self.items@.len() > 0
    }
}

impl<T: Bounds> InFact<T> {
    /// The models of the candidates, in order.
    pub closed spec fn candidates(&self) -> Seq<T::M> {
        self.items@.map(|i: int, x: T| x.model())
    }

    /// The violation message reported for values outside the set.
    pub closed spec fn context_view(&self) -> Seq<char> {
        self.context@
    }

    /// True when `obj`'s model equals the model of one of the candidates.
    fn contains_same(&self, obj: &T) -> (b: bool)
        ensures
            b == self.candidates().contains(obj.model()),
    {
        let n = self.items.len();
        let mut k: usize = 0;
        let mut found = false;
        while k < n
            invariant
                n == self.items.len(),
                k <= n,
                found == exists|i: int|
                    0 <= i < k && self.items@[i].model() == obj.model(),
            decreases n - k,
        {
            if self.items[k].same(obj) {
                found = true;
            }
            k = k + 1;
        }
        proof {
            if found {
                let i = choose|i: int| 0 <= i < n && self.items@[i].model() == obj.model();
                assert(self.candidates()[i] == obj.model());
            } else {
                if self.candidates().contains(obj.model()) {
                    let i = choose|i: int|
                        0 <= i < self.candidates().len() && self.candidates()[i] == obj.model();
                    assert(self.items@[i].model() == obj.model());
                }
            }
        }
        found
    }
}

impl<T: Bounds> InFact<T> {
    pub(crate) fn make(context: String, items: Vec<T>) -> (f: InFact<T>)
        requires
            items@.len() > 0,
        ensures
            f.candidates() == items@.map(|i: int, x: T| x.model()),
            f.context_view() == context@,
    {
        InFact { context, items }
    }
}

/// Membership constraint over an owned candidate list.
pub fn in_iter<T: Bounds>(items: Vec<T>) -> (f: InFact<T>)
    requires
        items@.len() > 0,
    ensures
        f.candidates() == items@.map(|i: int, x: T| x.model()),
        f.context_view() == "in_iter"@,
{
    InFact::make("in_iter".to_owned(), items)
}

/// Law: a membership constraint is satisfied exactly by values whose model
/// appears among the candidates.
pub proof fn lemma_in_sat<T: Bounds>(f: InFact<T>, m: T::M)
    ensures
        sat(f, m) <==> f.candidates().contains(m),
{
}

impl<T: Bounds> Fact<T> for InFact<T> {
    open spec fn errs(&self, m: T::M) -> Seq<Seq<char>> {
        if self.candidates().contains(m) {
            Seq::empty()
        } else {
            seq![self.context_view()]
        }
    }

    open spec fn forces(&self) -> bool {
        true
    }

    open spec fn step(self, m: T::M) -> Self {
        self
    }

    fn mutate(&self, obj: T, g: &mut Generator) -> (r: Result<T, MutationError>)
        ensures
            r matches Ok(v) ==> self.candidates().contains(v.model()),
            self.candidates().contains(obj.model()) ==> (r matches Ok(v) && v.model()
                == obj.model()) && final(g).rest() == old(g).rest(),
            !old(g).checking() && old(g).rest().len() > 0 ==> r is Ok,
    {
        if self.contains_same(&obj) {
            Ok(obj)
        } else {
            proof {
                use_type_invariant(self);
            }
            let i = match g.choose_index(self.items.len(), self.context.as_str()) {
                Ok(i) => i,
                Err(e) => {
                    return Err(e);
                },
            };
            let picked = self.items[i].dup();
            proof {
                assert(self.candidates()[i as int] == picked.model());
            }
            Ok(picked)
        }
    }

    fn check(&self, obj: &T) -> (c: Check) {
        // Replay `mutate` under a CheckOnly generator: the mutation itself is
        // the single source of truth for what this constraint means.
        let mut g = Generator::checker();
        let c = Check::from_result(self.mutate(obj.dup(), &mut g));
        proof {
            assert(c@ =~= self.errs(obj.model()));
        }
        c
    }

    fn advance(&mut self, obj: &T) {
    }
}

/// Constraint that combines two constraints, satisfied when either is.
///
/// This is created by the [`or`] function.
pub struct OrFact<M1, M2, Item> {
    /// The violation message reported when neither arm holds.
    pub context: String,
    /// The first arm.
    pub a: M1,
    /// The second arm.
    pub b: M2,
    /// Marker tying the constraint to its subject type.
    pub phantom: PhantomData<Item>,
}

/// Disjunction of two constraints.
pub fn or<A, B, T>(a: A, b: B) -> (f: OrFact<A, B, T>)
    where T: Bounds, A: Fact<T>, B: Fact<T>,
    ensures
        f.a == a,
        f.b == b,
{
    OrFact { context: "no arm of an or() constraint holds".to_owned(), a, b, phantom: PhantomData }
}

impl<T: Bounds, A: Fact<T>, B: Fact<T>> Fact<T> for OrFact<A, B, T> {
    open spec fn errs(&self, m: T::M) -> Seq<Seq<char>> {
        if self.a.errs(m).len() == 0 || self.b.errs(m).len() == 0 {
            Seq::empty()
        } else {
            seq![self.context@]
        }
    }

    open spec fn forces(&self) -> bool {
        self.a.forces() && self.b.forces()
    }

    open spec fn step(self, m: T::M) -> Self {
        OrFact {
            context: self.context,
            a: self.a.step(m),
            b: self.b.step(m),
            phantom: self.phantom,
        }
    }

    fn mutate(&self, obj: T, g: &mut Generator) -> (r: Result<T, MutationError>)
        ensures
            self.errs(obj.model()).len() == 0 ==> (r matches Ok(v) && v.model() == obj.model())
                && final(g).rest() == old(g).rest(),
    {
        let ca = self.a.check(&obj);
        if ca.is_ok() {
            return Ok(obj);
        }
        let cb = self.b.check(&obj);
        if cb.is_ok() {
            return Ok(obj);
        }
        let which = match g.choose_index(2, self.context.as_str()) {
            Ok(i) => i,
            Err(e) => {
                return Err(e);
            },
        };
        if which == 0 {
            self.a.mutate(obj, g)
        } else {
            self.b.mutate(obj, g)
        }
    }

    fn check(&self, obj: &T) -> (c: Check) {
        // Replay `mutate` under a CheckOnly generator: the mutation itself is
        // the single source of truth for what this constraint means.
        let mut g = Generator::checker();
        let c = Check::from_result(self.mutate(obj.dup(), &mut g));
        proof {
            assert(c@ =~= self.errs(obj.model()));
        }
        c
    }

    fn advance(&mut self, obj: &T) {
        self.a.advance(obj);
        self.b.advance(obj);
    }
}

} // verus!
