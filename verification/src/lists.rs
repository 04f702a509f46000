//! Helpers on owned lists.

use vstd::prelude::*;

verus! {

/// The items of `v` in the opposite order, moved and not copied. Popping from
/// the result hands the items of `v` out from the first to the last.
pub fn reversed<T>(v: Vec<T>) -> (r: Vec<T>)
    ensures
        r@ == v@.reverse(),
{
    let mut rest = v;
    let mut out: Vec<T> = Vec::new();
    while rest.len() > 0
        invariant
            rest@.len() + out@.len() == v@.len(),
            rest@ == v@.subrange(0, rest@.len() as int),
            forall|k: int| 0 <= k < out@.len() ==> #[trigger] out@[k] == v@[v@.len() - 1 - k],
        decreases rest@.len(),
    {
        let item = rest.pop().unwrap();
        assert(rest@ =~= v@.subrange(0, rest@.len() as int));
        out.push(item);
    }
    assert(out@ =~= v@.reverse());
    out
}

} // verus!
