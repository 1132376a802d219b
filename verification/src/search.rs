//! The first position at which something holds.

use vstd::prelude::*;

verus! {

/// `i` is the least position below `n` at which `p` holds.
pub open spec fn is_first(p: spec_fn(int) -> bool, n: int, i: int) -> bool {
    &&& 0 <= i < n
    &&& p(i)
    &&& forall|j: int| 0 <= j < i ==> !#[trigger] p(j)
}

/// The least position below `n` at which `p` holds, if there is one.
pub open spec fn first(p: spec_fn(int) -> bool, n: int) -> Option<int> {
    if exists|i: int| is_first(p, n, i) {
        Some(choose|i: int| is_first(p, n, i))
    } else {
        None
    }
}

/// A least position is the first.
pub proof fn first_is(p: spec_fn(int) -> bool, n: int, i: int)
    requires
        is_first(p, n, i),
    ensures
        first(p, n) == Some(i),
{
    let k = choose|k: int| is_first(p, n, k);
    if k < i {
    } else if i < k {
    }
}

/// Where `p` holds nowhere below `n`, there is no first position.
pub proof fn first_is_none(p: spec_fn(int) -> bool, n: int)
    requires
        forall|j: int| 0 <= j < n ==> !#[trigger] p(j),
    ensures
        first(p, n) is None,
{
}

/// What the first position is, and what it means that there is none.
pub proof fn first_properties(p: spec_fn(int) -> bool, n: int)
    ensures
        first(p, n) matches Some(i) ==> is_first(p, n, i),
        first(p, n) is None ==> forall|j: int| 0 <= j < n ==> !#[trigger] p(j),
    decreases n,
{
    if first(p, n) is None {
        assert forall|j: int| 0 <= j < n implies !#[trigger] p(j) by {
            if p(j) {
                least_exists(p, n, j);
            }
        }
    }
}

/// Where `p` holds at a position below `n`, it holds at a least one.
proof fn least_exists(p: spec_fn(int) -> bool, n: int, j: int)
    requires
        0 <= j < n,
        p(j),
    ensures
        exists|i: int| is_first(p, n, i),
    decreases j,
{
    if exists|k: int| 0 <= k < j && #[trigger] p(k) {
        let k = choose|k: int| 0 <= k < j && #[trigger] p(k);
        least_exists(p, n, k);
    } else {
        assert(is_first(p, n, j));
    }
}

} // verus!
