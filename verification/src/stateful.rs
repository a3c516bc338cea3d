//! A stateful constraint: bookkeeping carried across the items of a
//! sequence walk, updated by `advance`.

use vstd::prelude::*;

use crate::check::Check;
use crate::fact::{Bounds, Fact};
use crate::generator::{Generator, MutationError};

verus! {

/// The successor of `p`, wrapping at the top of the range.
pub open spec fn succ_of(p: u32) -> u32 {
    if p == u32::MAX {
        0
    } else {
        (p + 1) as u32
    }
}

/// Constraint over a sequence walk of numbers: each value must be one more
/// than the value before it (wrapping); the first value is unconstrained.
///
/// The constraint is stateful: `advance` records the value just walked
/// past, and the next item is checked or mutated against it. A value of
/// this type must therefore be owned by exactly one walk at a time.
pub struct Consecutive {
    /// The violation message reported when the succession breaks.
    pub context: String,
    /// The value most recently walked past, once there is one.
    pub prev: Option<u32>,
}

/// Constraint that successive values count up by one, wrapping at the top
/// of the range.
pub fn consecutive(context: &str) -> (f: Consecutive)
    ensures
        f.prev is None,
        f.context@ == context@,
{
    Consecutive { context: context.to_owned(), prev: None }
}

impl Fact<u32> for Consecutive {
    open spec fn errs(&self, m: u32) -> Seq<Seq<char>> {
        match self.prev {
            None => Seq::empty(),
            Some(p) => if m == succ_of(p) {
                Seq::empty()
            } else {
                seq![self.context@]
            },
        }
    }

    open spec fn forces(&self) -> bool {
        true
    }

    open spec fn step(self, m: u32) -> Self {
        Consecutive { context: self.context, prev: Some(m) }
    }

    fn mutate(&self, obj: u32, g: &mut Generator) -> (r: Result<u32, MutationError>)
        ensures
            self.prev matches Some(p) ==> (r matches Ok(v) ==> v == succ_of(p)),
            self.prev is None ==> (r matches Ok(v) && v == obj),
            final(g).rest() == old(g).rest(),
            !old(g).checking() ==> r is Ok,
    {
        match self.prev {
            None => Ok(obj),
            Some(p) => {
                let want: u32 = if p == u32::MAX {
                    0
                } else {
                    p + 1
                };
                if obj == want {
                    Ok(obj)
                } else {
                    g.set_to(&want, self.context.as_str())
                }
            },
        }
    }

    fn check(&self, obj: &u32) -> (c: Check) {
        // Replay `mutate` under a CheckOnly generator: the mutation itself is
        // the single source of truth for what this constraint means.
        let mut g = Generator::checker();
        let c = Check::from_result(self.mutate(obj.dup(), &mut g));
        proof {
            assert(c@ =~= self.errs(obj.model()));
        }
        c
    }

    fn advance(&mut self, obj: &u32) {
        self.prev = Some(*obj);
    }
}

} // verus!
