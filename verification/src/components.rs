//! Components: how a board puts a scheduler together at boot.
//!
//! A component is made from the kernel with its process table, and
//! `finalize` turns it into the scheduler that the kernel loop then runs.

use crate::process::{AppId, Process};
use vstd::prelude::*;

pub mod cooperative;
pub mod priority;
pub mod round_robin;

verus! {

/// The ring that a component builds from the first `n` slots of `table`,
/// from head to tail: the processes of the occupied slots in the order of
/// the table, which is the order in which they are put into the ring. An
/// empty slot adds nothing.
pub open spec fn initial_ring(table: Seq<Option<Process>>, n: int) -> Seq<AppId>
    decreases n,
{
    if n <= 0 {
        Seq::empty()
    } else if table[n - 1] is Some {
        initial_ring(table, n - 1).push(AppId { idx: (n - 1) as usize })
    } else {
        initial_ring(table, n - 1)
    }
}

/// The initial ring holds each process of the first `n` slots once, and
/// nothing else, and a process of an earlier slot stands nearer to the head.
pub proof fn initial_ring_holds_each_process_once(table: Seq<Option<Process>>, n: int)
    requires
        0 <= n <= table.len(),
        n <= usize::MAX,
    ensures
        initial_ring(table, n).no_duplicates(),
        forall|id: AppId|
            initial_ring(table, n).contains(id) <==> id.idx < n && table[id.idx as int] is Some,
        forall|i: int, j: int|
            0 <= i < j < initial_ring(table, n).len() ==> initial_ring(table, n)[i].idx
                < initial_ring(table, n)[j].idx,
    decreases n,
{
    let ring = initial_ring(table, n);
    if n > 0 {
        initial_ring_holds_each_process_once(table, n - 1);
        let rest = initial_ring(table, n - 1);
        assert forall|i: int| 0 <= i < rest.len() implies rest[i].idx < n - 1 by {
            assert(rest.contains(rest[i]));
        }
        assert forall|id: AppId| ring.contains(id) <==> id.idx < n && table[id.idx as int]
            is Some by {
            if ring.contains(id) {
                let i = choose|i: int| 0 <= i < ring.len() && ring[i] == id;
                if i < rest.len() {
                    assert(rest.contains(rest[i]));
                }
            }
            if id.idx < n && table[id.idx as int] is Some {
                if id.idx == n - 1 {
                    assert(ring[ring.len() - 1] == id);
                } else {
                    assert(rest.contains(id));
                    let i = choose|i: int| 0 <= i < rest.len() && rest[i] == id;
                    assert(ring[i] == id);
                }
            }
        }
    }
}

} // verus!
