//! Strict priority scheduling.
//!
//! The priority of a process is its place in the process table: the process
//! in the first slot has the highest. The policy keeps no queue. It always
//! selects the first process of the table that is ready.

use crate::kernel::Kernel;
use crate::process::{runnable, AppId, Process};
use crate::sched::{Scheduler, StoppedExecutingReason};
use crate::search::{first, first_is, first_is_none, first_properties};
use vstd::prelude::*;

verus! {

/// The timeslice that every selected process is granted, in microseconds.
/// It is a safeguard: the policy does not rely on it.
pub const DEFAULT_TIMESLICE_US: u32 = 10000;

/// Whether slot `i` of `table` holds a ready process, as a function of `i`.
pub open spec fn ready_at(table: Seq<Option<Process>>) -> spec_fn(int) -> bool {
    |i: int| runnable(table, i)
}

/// The slot of the first ready process of `table`, if any process is ready.
pub open spec fn first_runnable(table: Seq<Option<Process>>) -> Option<int> {
    first(ready_at(table), table.len() as int)
}

/// Preemptive priority scheduler. It has no state.
pub struct PrioritySched {}

impl View for PrioritySched {
    type V = ();

    open spec fn view(&self) -> () {
        ()
    }
}

impl PrioritySched {
    pub fn new() -> (sched: PrioritySched) {
        PrioritySched {  }
    }
}

impl Scheduler for PrioritySched {
    open spec fn inv(model: ()) -> bool {
        true
    }

    open spec fn preemptive() -> bool {
        false
    }

    open spec fn strict() -> bool {
        true
    }

    open spec fn setup_spec(model: (), now: u32) -> () {
        ()
    }

    /// The first ready process in table order.
    open spec fn next_spec(model: (), table: Seq<Option<Process>>, now: u32) -> (
        (),
        Option<AppId>,
        Option<u32>,
    ) {
        match first_runnable(table) {
            Some(i) => ((), Some(AppId { idx: i as usize }), Some(DEFAULT_TIMESLICE_US)),
            None => ((), None, None),
        }
    }

    open spec fn result_spec(
        model: (),
        reason: StoppedExecutingReason,
        time_used: Option<u32>,
    ) -> () {
        ()
    }

    fn setup(&mut self, now: u32, timer_is_dummy: bool) {
    }

    fn next(&mut self, kernel: &Kernel, now: u32) -> (selection: (Option<AppId>, Option<u32>)) {
        let ghost ready = ready_at(kernel@);
        let n: usize = kernel.number_of_slots();
        let mut i: usize = 0;
        while i < n
            invariant
                i <= n == kernel@.len(),
                ready == ready_at(kernel@),
                forall|j: int| 0 <= j < i ==> !#[trigger] ready(j),
            decreases n - i,
        {
            let appid = AppId::new(i);
            if kernel.process_ready(appid) {
                proof {
                    first_is(ready, n as int, i as int);
                }
                return (Some(appid), Some(DEFAULT_TIMESLICE_US));
            }
            i = i + 1;
        }
        proof {
            first_is_none(ready, n as int);
        }
        (None, None)
    }

    fn result(&mut self, reason: StoppedExecutingReason, time_used: Option<u32>) {
    }

    fn bottom_half_strict(&self) -> (strict: bool) {
        true
    }

    fn needs_timer(&self) -> (needed: bool) {
        false
    }
}

/// No process is selected while one before it in the table is ready: the
/// process selected is ready, and none in a slot before its own is.
pub proof fn priority_selects_first_ready(table: Seq<Option<Process>>, now: u32)
    requires
        table.len() <= usize::MAX,
    ensures
        PrioritySched::next_spec((), table, now).1 matches Some(selected) ==> {
            &&& runnable(table, selected.idx as int)
            &&& forall|earlier: int|
                0 <= earlier < selected.idx ==> !runnable(table, earlier)
        },
        PrioritySched::next_spec((), table, now).1 is None ==> forall|i: int| !runnable(table, i),
{
    let ready = ready_at(table);
    first_properties(ready, table.len() as int);
    match first_runnable(table) {
        Some(i) => {
            assert forall|earlier: int| 0 <= earlier < i implies !runnable(table, earlier) by {
                assert(!ready(earlier));
            }
        },
        None => {
            assert forall|i: int| !runnable(table, i) by {
                if 0 <= i < table.len() {
                    assert(!ready(i));
                }
            }
        },
    }
}

} // verus!
