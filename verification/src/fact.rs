use vstd::prelude::*;

use crate::check::Check;
use crate::generator::{Generator, MutationError};

verus! {

/// When running [`Fact::satisfy`], repeat mutate+check this many times, in
/// case repetition helps ease into the constraint.
pub const SATISFY_ATTEMPTS: usize = 7;

/// The trait bounds for the subject of a [`Fact`]: cloning, equality testing
/// and construction of an arbitrary instance from entropy, each reflected to
/// a mathematical model of the value.
pub trait Bounds: Sized {
    /// The mathematical model that contracts speak about.
    type M;

    /// The model of this value.
    spec fn model(&self) -> Self::M;

    /// A copy with the same model.
    fn dup(&self) -> (r: Self)
        ensures
            r.model() == self.model(),
    ;

    /// Equality test, reflected to the model.
    fn same(&self, other: &Self) -> (b: bool)
        ensures
            b == (self.model() == other.model()),
    ;

    /// An entropy budget sufficient for one `generate` call: with at least
    /// this many bytes remaining, generation cannot fail, and a call never
    /// consumes more than this many bytes.
    spec fn entropy_need() -> nat;

    /// Construct an arbitrary instance from the generator's entropy. In
    /// `CheckOnly` mode this must refuse, carrying the given message. In
    /// `Build` mode it must consume at least one byte and at most
    /// `entropy_need()` bytes on success, and may fail only as exhausted,
    /// only when fewer than `entropy_need()` bytes remained.
    fn generate(g: &mut Generator, reason: &str) -> (r: Result<Self, MutationError>)
        ensures
            final(g).checking() == old(g).checking(),
            old(g).checking() ==> final(g).rest() == old(g).rest()
                && (r matches Err(MutationError::Rejected(s)) && s@ == reason@),
            !old(g).checking() ==> match r {
                Ok(_) => final(g).rest().len() < old(g).rest().len()
                    && old(g).rest().len() <= final(g).rest().len() + Self::entropy_need(),
                Err(e) => e is Exhausted && old(g).rest().len() < Self::entropy_need(),
            },
    ;
}

/// A terminal failure of [`Fact::satisfy`] or [`Fact::build`]. Retrying with
/// the same constraint and buffer cannot help: each of these conditions is a
/// deterministic function of the two.
#[derive(Debug)]
pub enum Fatal {
    /// The entropy buffer ran out.
    Exhausted,
    /// Brute-force mutation exceeded its iteration ceiling.
    BruteForceExceeded(String),
    /// The attempt ceiling was exceeded; carries the last violation list.
    UnsatisfiableAfterBound(Vec<String>),
}

/// Satisfied exactly when the constraint reports no violations.
pub open spec fn sat<T: Bounds, F: Fact<T>>(f: F, m: T::M) -> bool {
    f.errs(m).len() == 0
}

/// A declarative representation of a constraint on some data, which can be
/// used both to make an assertion (check) and to mold some arbitrary
/// existing data into a shape which passes that same assertion (mutate).
///
/// The central invariant, stated on `mutate`: replaying `mutate` under a
/// `CheckOnly` generator leaves a value unchanged and succeeds exactly when
/// the value already satisfies the constraint, and otherwise refuses with
/// the constraint's first violation message. A primitive's `check` is
/// exactly that replay, and the structural lifts and composites assemble
/// their members' checks, so verification and mutation cannot drift apart.
pub trait Fact<T: Bounds>: Sized {
    /// The ordered violation messages this constraint reports for a value
    /// with model `m`.
    spec fn errs(&self, m: T::M) -> Seq<Seq<char>>;

    /// True when `mutate` can only succeed with values that satisfy the
    /// constraint.
    spec fn forces(&self) -> bool;

    /// The state this constraint moves to when a sequence walk advances past
    /// a value with model `m`.
    spec fn step(self, m: T::M) -> Self;

    /// Apply a mutation which moves `obj` closer to satisfying the
    /// constraint, drawing entropy from `g`.
    fn mutate(&self, obj: T, g: &mut Generator) -> (r: Result<T, MutationError>)
        ensures
            final(g).checking() == old(g).checking(),
            old(g).checking() ==> match r {
                Ok(v) => self.errs(obj.model()).len() == 0 && v.model() == obj.model(),
                Err(e) => self.errs(obj.model()).len() > 0
                    && (e matches MutationError::Rejected(s)
                        && s@ == self.errs(obj.model())[0]),
            },
            !old(g).checking() ==> (r matches Err(e) ==> !(e is Rejected)),
            self.forces() ==> (r matches Ok(v) ==> self.errs(v.model()).len() == 0),
    ;

    /// Assert the constraint for the given data, reporting every violation,
    /// without changing anything.
    fn check(&self, obj: &T) -> (c: Check)
        ensures
            c@ == self.errs(obj.model()),
    ;

    /// When checking or mutating a sequence of items, this gets called after
    /// each item to update the state to get ready for the next item.
    fn advance(&mut self, obj: &T)
        ensures
            *final(self) == (*old(self)).step(obj.model()),
    ;

    /// Mutate a value until it satisfies the constraint, repeating at most
    /// [`SATISFY_ATTEMPTS`] times. Exceeding the bound is a terminal
    /// failure carrying the last violation list; a constraint whose
    /// mutations always land inside the constraint never fails that way.
    fn satisfy(&self, obj: T, g: &mut Generator) -> (r: Result<T, Fatal>)
        requires
            !old(g).checking(),
        ensures
            !final(g).checking(),
            r matches Ok(v) ==> self.errs(v.model()).len() == 0,
            r matches Err(Fatal::UnsatisfiableAfterBound(v)) ==> v@.len() > 0,
            self.forces() ==> !(r matches Err(e) && e is UnsatisfiableAfterBound),
    {
        let mut cur = obj;
        let mut last: Vec<String> = Vec::new();
        let mut i: usize = 0;
        while i < SATISFY_ATTEMPTS
            invariant
                !g.checking(),
                self.forces() ==> i == 0,
                i > 0 ==> last@.len() > 0,
            decreases SATISFY_ATTEMPTS - i,
        {
            let next = match self.mutate(cur, g) {
                Ok(v) => v,
                Err(MutationError::Exhausted) => {
                    return Err(Fatal::Exhausted);
                },
                Err(MutationError::BruteForceExceeded(s)) => {
                    return Err(Fatal::BruteForceExceeded(s));
                },
                Err(MutationError::Rejected(_)) => {
                    // A Build-mode generator never rejects; unreachable.
                    return Err(Fatal::Exhausted);
                },
            };
            let c = self.check(&next);
            if c.is_ok() {
                return Ok(next);
            }
            proof {
                assert(!self.forces());
            }
            last = c.errors();
            cur = next;
            i = i + 1;
        }
        Err(Fatal::UnsatisfiableAfterBound(last))
    }

    /// Build a new value such that it satisfies the constraint: draw an
    /// arbitrary value, then repair it with `satisfy`.
    fn build(&self, g: &mut Generator) -> (r: Result<T, Fatal>)
        requires
            !old(g).checking(),
        ensures
            !final(g).checking(),
            r matches Ok(v) ==> self.errs(v.model()).len() == 0,
            r matches Err(Fatal::UnsatisfiableAfterBound(v)) ==> v@.len() > 0,
            self.forces() ==> !(r matches Err(e) && e is UnsatisfiableAfterBound),
    {
        match T::generate(g, "ran out of entropy while drawing a fresh value") {
            Ok(obj) => self.satisfy(obj, g),
            Err(_) => Err(Fatal::Exhausted),
        }
    }
}

/// Ordered conjunction of two constraints: `check` must pass both, `mutate`
/// pipelines left to right (the second member consumes the first member's
/// output), `advance` broadcasts to both. Nest [`AndFact`]s to form longer
/// pipelines.
///
/// The pipeline is order-sensitive by design: only the trailing member's
/// guarantee is preserved across a whole `mutate` pass, since a later
/// member's mutation may rewrite what an earlier one arranged. Place
/// coarse, resampling constraints first and structural constraints after
/// them.
pub struct AndFact<A, B, T> {
    /// The member mutated first.
    pub a: A,
    /// The member mutated second.
    pub b: B,
    /// Marker tying the constraint to its subject type.
    pub phantom: core::marker::PhantomData<T>,
}

/// Conjunction of two constraints, `a` pipelined before `b`.
pub fn and<A, B, T>(a: A, b: B) -> (f: AndFact<A, B, T>)
    where T: Bounds, A: Fact<T>, B: Fact<T>,
    ensures
        f.a == a,
        f.b == b,
{
    AndFact { a, b, phantom: core::marker::PhantomData }
}

impl<T: Bounds, A: Fact<T>, B: Fact<T>> Fact<T> for AndFact<A, B, T> {
    open spec fn errs(&self, m: T::M) -> Seq<Seq<char>> {
        self.a.errs(m) + self.b.errs(m)
    }

    open spec fn forces(&self) -> bool {
        false
    }

    open spec fn step(self, m: T::M) -> Self {
        AndFact { a: self.a.step(m), b: self.b.step(m), phantom: self.phantom }
    }

    fn mutate(&self, obj: T, g: &mut Generator) -> (r: Result<T, MutationError>)
        ensures
            self.b.forces() ==> (r matches Ok(v) ==> self.b.errs(v.model()).len() == 0),
    {
        let mid = match self.a.mutate(obj, g) {
            Ok(v) => v,
            Err(e) => {
                return Err(e);
            },
        };
        self.b.mutate(mid, g)
    }

    fn check(&self, obj: &T) -> (c: Check) {
        let c = self.a.check(obj).and(self.b.check(obj));
        c
    }

    fn advance(&mut self, obj: &T) {
        self.a.advance(obj);
        self.b.advance(obj);
    }
}

/// The models of the values in a sequence.
pub open spec fn models<T: Bounds>(s: Seq<T>) -> Seq<T::M> {
    s.map(|i: int, x: T| x.model())
}

/// Whether a walk of `f` over successive values with models `ms` finds every
/// value satisfying the constraint state current at its position.
pub open spec fn seq_sat<T: Bounds, F: Fact<T>>(f: F, ms: Seq<T::M>) -> bool
    decreases ms.len(),
{
    ms.len() == 0 || (sat(f, ms[0]) && seq_sat(f.step(ms[0]), ms.skip(1)))
}

/// The state `f` reaches after advancing past every value in `ms`.
pub open spec fn steps<T: Bounds, F: Fact<T>>(f: F, ms: Seq<T::M>) -> F
    decreases ms.len(),
{
    if ms.len() == 0 {
        f
    } else {
        steps(f.step(ms[0]), ms.skip(1))
    }
}

/// The position-tagged violation messages of a walk of `f` over `ms`, the
/// first value sitting at position `at`.
pub open spec fn walk_errs<T: Bounds, F: Fact<T>>(f: F, ms: Seq<T::M>, at: nat) -> Seq<Seq<char>>
    decreases ms.len(),
{
    if ms.len() == 0 {
        Seq::empty()
    } else {
        f.errs(ms[0]).map(|i: int, e: Seq<char>| crate::check::item_tag(at) + e) + walk_errs(
            f.step(ms[0]),
            ms.skip(1),
            at + 1,
        )
    }
}

/// Extending a walk by one value: the walk succeeds exactly when the shorter
/// walk does and the advanced state accepts the new value.
pub proof fn lemma_walk_push<T: Bounds, F: Fact<T>>(f: F, ms: Seq<T::M>, m: T::M)
    ensures
        seq_sat(f, ms.push(m)) == (seq_sat(f, ms) && sat(steps(f, ms), m)),
        steps(f, ms.push(m)) == steps(f, ms).step(m),
    decreases ms.len(),
{
    if ms.len() == 0 {
        reveal_with_fuel(seq_sat, 2);
        reveal_with_fuel(steps, 2);
        assert(ms.push(m)[0] == m);
        assert(ms.push(m).skip(1) =~= Seq::<T::M>::empty());
        assert(ms =~= Seq::<T::M>::empty());
    } else {
        assert(ms.push(m)[0] == ms[0]);
        assert(ms.push(m).skip(1) =~= ms.skip(1).push(m));
        lemma_walk_push(f.step(ms[0]), ms.skip(1), m);
    }
}

/// Extending a walk by one value appends that value's tagged violations.
pub proof fn lemma_walk_errs_push<T: Bounds, F: Fact<T>>(f: F, ms: Seq<T::M>, m: T::M, at: nat)
    ensures
        walk_errs(f, ms.push(m), at) == walk_errs(f, ms, at) + steps(f, ms).errs(m).map(
            |i: int, e: Seq<char>| crate::check::item_tag(at + ms.len()) + e,
        ),
    decreases ms.len(),
{
    if ms.len() == 0 {
        reveal_with_fuel(walk_errs, 2);
        reveal_with_fuel(steps, 2);
        assert(ms.push(m)[0] == m);
        assert(ms.push(m).skip(1) =~= Seq::<T::M>::empty());
        assert(ms =~= Seq::<T::M>::empty());
        assert(walk_errs(f, ms.push(m), at) =~= walk_errs(f, ms, at) + steps(f, ms).errs(m).map(
            |i: int, e: Seq<char>| crate::check::item_tag(at + ms.len()) + e,
        ));
    } else {
        assert(ms.push(m)[0] == ms[0]);
        assert(ms.push(m).skip(1) =~= ms.skip(1).push(m));
        lemma_walk_errs_push(f.step(ms[0]), ms.skip(1), m, at + 1);
        assert(walk_errs(f, ms.push(m), at) =~= walk_errs(f, ms, at) + steps(f, ms).errs(m).map(
            |i: int, e: Seq<char>| crate::check::item_tag(at + ms.len()) + e,
        ));
    }
}

/// A walk reports no violations exactly when it is satisfied throughout.
pub proof fn lemma_walk_errs_empty<T: Bounds, F: Fact<T>>(f: F, ms: Seq<T::M>, at: nat)
    ensures
        (walk_errs(f, ms, at).len() == 0) == seq_sat(f, ms),
    decreases ms.len(),
{
    if ms.len() != 0 {
        lemma_walk_errs_empty(f.step(ms[0]), ms.skip(1), at + 1);
    }
}

/// Build a sequence of `n` values, each satisfying the constraint state
/// current at its position, advancing the constraint between items.
pub fn build_seq<T: Bounds, F: Fact<T>>(g: &mut Generator, n: usize, f: F) -> (r: Result<
    Vec<T>,
    Fatal,
>)
    requires
        !old(g).checking(),
    ensures
        !final(g).checking(),
        r matches Ok(v) ==> v@.len() == n && seq_sat(f, models(v@)),
        n == 0 ==> r is Ok,
{
    let ghost f0 = f;
    let mut cur = f;
    let mut out: Vec<T> = Vec::new();
    let mut i: usize = 0;
    while i < n
        invariant
            !g.checking(),
            i <= n,
            out@.len() == i,
            seq_sat(f0, models(out@)),
            cur == steps(f0, models(out@)),
        decreases n - i,
    {
        let obj = match cur.build(g) {
            Ok(v) => v,
            Err(e) => {
                return Err(e);
            },
        };
        cur.advance(&obj);
        proof {
            lemma_walk_push(f0, models(out@), obj.model());
            assert(models(out@.push(obj)) =~= models(out@).push(obj.model()));
        }
        out.push(obj);
        i = i + 1;
    }
    Ok(out)
}

/// Check a sequence of values, advancing the constraint between items.
/// Violations are tagged with the item's position.
pub fn check_seq<T: Bounds, F: Fact<T>>(objs: &Vec<T>, f: F) -> (c: Check)
    ensures
        c@ == walk_errs(f, models(objs@), 0),
        c@.len() == 0 <==> seq_sat(f, models(objs@)),
{
    let ghost f0 = f;
    let ghost ms = models(objs@);
    let mut cur = f;
    let mut acc = Check::empty();
    let mut i: usize = 0;
    while i < objs.len()
        invariant
            objs@.len() == ms.len(),
            ms == models(objs@),
            i <= ms.len(),
            cur == steps(f0, ms.take(i as int)),
            acc@ == walk_errs(f0, ms.take(i as int), 0),
        decreases objs@.len() - i,
    {
        let tag = crate::check::item_tag_string(i);
        let ci = cur.check(&objs[i]).prefix(tag.as_str());
        cur.advance(&objs[i]);
        proof {
            assert(ms.take(i + 1) =~= ms.take(i as int).push(ms[i as int]));
            lemma_walk_push(f0, ms.take(i as int), ms[i as int]);
            lemma_walk_errs_push(f0, ms.take(i as int), ms[i as int], 0);
            assert(objs@[i as int].model() == ms[i as int]);
            assert(ci@ =~= steps(f0, ms.take(i as int)).errs(ms[i as int]).map(
                |j: int, e: Seq<char>| crate::check::item_tag((i as int + 0) as nat) + e,
            ));
        }
        acc = acc.and(ci);
        i = i + 1;
    }
    proof {
        assert(ms.take(ms.len() as int) =~= ms);
        lemma_walk_errs_empty(f0, ms, 0);
    }
    acc
}

} // verus!
