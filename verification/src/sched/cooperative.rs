//! Cooperative scheduling.
//!
//! The processes stand in a ring. The head runs without a timeslice until it
//! stops of its own accord, then the ring turns. When an interrupt takes the
//! CPU from the head, the head stays in place and resumes after the bottom
//! half.

use crate::kernel::Kernel;
use crate::list::{
    rotate, rotate_keeps_distinct, rotate_keeps_nodes, rotate_to, rotate_to_next, List,
};
use crate::process::{AppId, Process};
use crate::sched::{Scheduler, StoppedExecutingReason};
use vstd::prelude::*;

verus! {

/// A node of the ready ring.
pub struct CoopProcessNode {
    /// The process that the node stands for.
    pub appid: AppId,
}

impl CoopProcessNode {
    pub fn new(appid: AppId) -> (node: CoopProcessNode)
        ensures
            node.appid == appid,
    {
        CoopProcessNode { appid }
    }
}

/// The processes that the nodes of a ring stand for, from head to tail.
pub open spec fn ring_ids(nodes: Seq<CoopProcessNode>) -> Seq<AppId> {
    nodes.map_values(|node: CoopProcessNode| node.appid)
}

/// Cooperative scheduler. The view is the ring of processes, from head to
/// tail.
pub struct CooperativeSched {
    pub processes: List<CoopProcessNode>,
}

impl View for CooperativeSched {
    type V = Seq<AppId>;

    open spec fn view(&self) -> Seq<AppId> {
        ring_ids(self.processes@)
    }
}

impl CooperativeSched {
    pub fn new() -> (sched: CooperativeSched)
        ensures
            sched.processes@ == Seq::<CoopProcessNode>::empty(),
            sched@ == Seq::<AppId>::empty(),
    {
        CooperativeSched { processes: List::new() }
    }
}

impl Scheduler for CooperativeSched {
    /// No process stands in the ring twice.
    open spec fn inv(model: Seq<AppId>) -> bool {
        model.no_duplicates()
    }

    open spec fn preemptive() -> bool {
        false
    }

    open spec fn strict() -> bool {
        true
    }

    open spec fn setup_spec(model: Seq<AppId>, now: u32) -> Seq<AppId> {
        model
    }

    /// The head of the ring, without a timeslice.
    open spec fn next_spec(model: Seq<AppId>, table: Seq<Option<Process>>, now: u32) -> (
        Seq<AppId>,
        Option<AppId>,
        Option<u32>,
    ) {
        if model.len() == 0 {
            (model, None, None)
        } else {
            (model, Some(model[0]), None)
        }
    }

    /// The ring stays as it is after a preemption by the kernel, and turns by
    /// one place after any other stop.
    open spec fn result_spec(
        model: Seq<AppId>,
        reason: StoppedExecutingReason,
        time_used: Option<u32>,
    ) -> Seq<AppId> {
        if reason == StoppedExecutingReason::KernelPreemption {
            model
        } else {
            rotate(model)
        }
    }

    fn setup(&mut self, now: u32, timer_is_dummy: bool) {
    }

    fn next(&mut self, kernel: &Kernel, now: u32) -> (selection: (Option<AppId>, Option<u32>)) {
        match self.processes.head() {
            Some(node) => (Some(node.appid), None),
            None => (None, None),
        }
    }

    fn result(&mut self, reason: StoppedExecutingReason, time_used: Option<u32>) {
        proof {
            rotate_keeps_distinct(self@);
        }
        if reason != StoppedExecutingReason::KernelPreemption {
            match self.processes.pop_head() {
                Some(node) => {
                    self.processes.push_tail(node);
                    assert(self@ =~= rotate(old(self)@));
                },
                None => {},
            }
        }
    }

    fn bottom_half_strict(&self) -> (strict: bool) {
        true
    }

    fn needs_timer(&self) -> (needed: bool) {
        false
    }
}

/// Whatever way an execution ends, the ring holds afterwards the processes
/// that it held, each once if it held each once.
pub proof fn result_keeps_each_process_once(
    ring: Seq<AppId>,
    reason: StoppedExecutingReason,
    time_used: Option<u32>,
)
    requires
        ring.no_duplicates(),
    ensures
        CooperativeSched::result_spec(ring, reason, time_used).no_duplicates(),
        CooperativeSched::result_spec(ring, reason, time_used).to_multiset()
            == ring.to_multiset(),
{
    rotate_keeps_distinct(ring);
    rotate_keeps_nodes(ring);
}

/// The ring after a run of executions that end as `outcomes` tell, each with
/// the reason for the stop and the time used.
pub open spec fn after_results(
    ring: Seq<AppId>,
    outcomes: Seq<(StoppedExecutingReason, Option<u32>)>,
) -> Seq<AppId>
    decreases outcomes.len(),
{
    if outcomes.len() == 0 {
        ring
    } else {
        CooperativeSched::result_spec(
            after_results(ring, outcomes.drop_last()),
            outcomes.last().0,
            outcomes.last().1,
        )
    }
}

/// Processes that are never preempted run in the order of the ring, round
/// after round: after as many stops as `outcomes` holds, none of them a
/// preemption, the process selected is the one that many places behind the
/// first head, and after as many stops as the ring has processes the ring
/// is as it was.
pub proof fn processes_run_in_ring_order(
    ring: Seq<AppId>,
    table: Seq<Option<Process>>,
    now: u32,
    outcomes: Seq<(StoppedExecutingReason, Option<u32>)>,
)
    requires
        outcomes.len() <= ring.len(),
        forall|i: int|
            0 <= i < outcomes.len() ==> (#[trigger] outcomes[i]).0
                != StoppedExecutingReason::KernelPreemption,
    ensures
        after_results(ring, outcomes) == rotate_to(ring, outcomes.len() as int),
        outcomes.len() < ring.len() ==> CooperativeSched::next_spec(
            after_results(ring, outcomes),
            table,
            now,
        ).1 == Some(ring[outcomes.len() as int]),
        outcomes.len() == ring.len() ==> after_results(ring, outcomes) == ring,
    decreases outcomes.len(),
{
    if outcomes.len() == 0 {
    } else {
        let before = outcomes.drop_last();
        assert forall|i: int| 0 <= i < before.len() implies (#[trigger] before[i]).0
            != StoppedExecutingReason::KernelPreemption by {
        }
        processes_run_in_ring_order(ring, table, now, before);
        rotate_to_next(ring, before.len() as int);
    }
}

} // verus!
