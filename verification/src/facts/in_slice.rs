use vstd::prelude::*;

use crate::fact::Bounds;
use crate::predicates::InFact;

verus! {

/// Membership constraint over a borrowed, non-empty candidate slice, with a
/// caller-supplied context message.
pub fn in_slice<T: Bounds>(context: &str, slice: &[T]) -> (f: InFact<T>)
    requires
        slice@.len() > 0,
    ensures
        f.candidates() == slice@.map(|i: int, x: T| x.model()),
        f.context_view() == context@,
{
    let n = slice.len();
    let mut items: Vec<T> = Vec::new();
    let mut k: usize = 0;
    while k < n
        invariant
            n == slice@.len(),
            k <= n,
            items@.len() == k,
            forall|i: int| 0 <= i < k ==> items@[i].model() == slice@[i].model(),
        decreases n - k,
    {
        items.push(slice[k].dup());
        k = k + 1;
    }
    let f = InFact::make(context.to_owned(), items);
    proof {
        assert(f.candidates() =~= slice@.map(|i: int, x: T| x.model()));
    }
    f
}

/// [`in_slice`] with a default message.
pub fn in_slice_<T: Bounds>(slice: &[T]) -> (f: InFact<T>)
    requires
        slice@.len() > 0,
    ensures
        f.candidates() == slice@.map(|i: int, x: T| x.model()),
        f.context_view() == "in_slice"@,
{
    in_slice("in_slice", slice)
}

} // verus!
