//! Round-robin scheduling with interrupts.
//!
//! The processes stand in a ring and the head runs for a timeslice. When the
//! timeslice is used up, or the process stops of its own accord, the ring
//! turns. When an interrupt takes the CPU from the head, the head stays in
//! place and what was left of its timeslice is kept: it resumes with that
//! remainder, so that interrupts cost a process none of its time.

use crate::engine::{elapsed_us, TimerStatus};
use crate::kernel::Kernel;
use crate::list::{rotate, rotate_keeps_distinct, rotate_keeps_nodes, List};
use crate::process::{AppId, Process};
use crate::sched::{Scheduler, StoppedExecutingReason};
use vstd::prelude::*;

verus! {

/// How long a process runs before it is preempted, in microseconds.
pub const DEFAULT_TIMESLICE_US: u32 = 10000;

/// A node of the ready ring.
pub struct RoundRobinProcessNode {
    /// The process that the node stands for.
    pub appid: AppId,
}

impl RoundRobinProcessNode {
    pub fn new(appid: AppId) -> (node: RoundRobinProcessNode)
        ensures
            node.appid == appid,
    {
        RoundRobinProcessNode { appid }
    }
}

/// The processes that the nodes of a ring stand for, from head to tail.
pub open spec fn ring_ids(nodes: Seq<RoundRobinProcessNode>) -> Seq<AppId> {
    nodes.map_values(|node: RoundRobinProcessNode| node.appid)
}

/// The state of the round-robin policy.
pub struct RoundRobinState {
    /// The ring of processes, from head to tail.
    pub ring: Seq<AppId>,
    /// What was left of the timeslice of the head when it was preempted.
    pub time_remaining: u32,
    /// The head was preempted by the kernel and resumes with the remainder.
    pub preempted: bool,
}

impl RoundRobinState {
    /// The timeslice that the head is granted: the remainder kept at its
    /// preemption, or else a full timeslice.
    pub open spec fn timeslice(self) -> u32 {
        if self.preempted {
            self.time_remaining
        } else {
            DEFAULT_TIMESLICE_US
        }
    }
}

/// What is left of a timeslice of `programmed` microseconds after `time_used`
/// of them. Nothing is left of a timeslice that was overrun, and all of one
/// of which no use is reported.
pub open spec fn remainder(programmed: u32, time_used: Option<u32>) -> u32 {
    match time_used {
        Some(used) => if used <= programmed {
            (programmed - used) as u32
        } else {
            0
        },
        None => programmed,
    }
}

/// Round-robin scheduler.
pub struct RoundRobinSched {
    pub time_remaining: u32,
    pub preempted: bool,
    pub processes: List<RoundRobinProcessNode>,
}

impl View for RoundRobinSched {
    type V = RoundRobinState;

    open spec fn view(&self) -> RoundRobinState {
        RoundRobinState {
            ring: ring_ids(self.processes@),
            time_remaining: self.time_remaining,
            preempted: self.preempted,
        }
    }
}

impl RoundRobinSched {
    pub fn new() -> (sched: RoundRobinSched)
        ensures
            sched.processes@ == Seq::<RoundRobinProcessNode>::empty(),
            sched@.ring == Seq::<AppId>::empty(),
            sched@.time_remaining == 0,
            !sched@.preempted,
    {
        RoundRobinSched { time_remaining: 0, preempted: false, processes: List::new() }
    }

    /// The timeslice that the head is granted.
    pub fn timeslice(&self) -> (timeslice: u32)
        ensures
            timeslice == self@.timeslice(),
    {
        if self.preempted {
            self.time_remaining
        } else {
            DEFAULT_TIMESLICE_US
        }
    }
}

impl Scheduler for RoundRobinSched {
    /// No process stands in the ring twice.
    open spec fn inv(model: RoundRobinState) -> bool {
        model.ring.no_duplicates()
    }

    open spec fn preemptive() -> bool {
        true
    }

    open spec fn strict() -> bool {
        true
    }

    open spec fn setup_spec(model: RoundRobinState, now: u32) -> RoundRobinState {
        model
    }

    /// The head of the ring, with the remainder of its timeslice if it was
    /// preempted and with a full timeslice if not.
    open spec fn next_spec(model: RoundRobinState, table: Seq<Option<Process>>, now: u32) -> (
        RoundRobinState,
        Option<AppId>,
        Option<u32>,
    ) {
        if model.ring.len() == 0 {
            (model, None, None)
        } else {
            (model, Some(model.ring[0]), Some(model.timeslice()))
        }
    }

    /// After a preemption by the kernel the ring stays as it is and the
    /// remainder of the timeslice is kept. After any other stop the ring
    /// turns by one place and the remainder is dropped.
    open spec fn result_spec(
        model: RoundRobinState,
        reason: StoppedExecutingReason,
        time_used: Option<u32>,
    ) -> RoundRobinState {
        if reason == StoppedExecutingReason::KernelPreemption {
            RoundRobinState {
                ring: model.ring,
                time_remaining: remainder(model.timeslice(), time_used),
                preempted: true,
            }
        } else {
            RoundRobinState { ring: rotate(model.ring), time_remaining: 0, preempted: false }
        }
    }

    fn setup(&mut self, now: u32, timer_is_dummy: bool) {
    }

    fn next(&mut self, kernel: &Kernel, now: u32) -> (selection: (Option<AppId>, Option<u32>)) {
        match self.processes.head() {
            Some(node) => (Some(node.appid), Some(self.timeslice())),
            None => (None, None),
        }
    }

    fn result(&mut self, reason: StoppedExecutingReason, time_used: Option<u32>) {
        proof {
            rotate_keeps_distinct(self@.ring);
        }
        if reason == StoppedExecutingReason::KernelPreemption {
            let programmed: u32 = self.timeslice();
            self.time_remaining =
            match time_used {
                Some(used) => if used <= programmed {
                    programmed - used
                } else {
                    0
                },
                None => programmed,
            };
            self.preempted = true;
        } else {
            match self.processes.pop_head() {
                Some(node) => {
                    self.processes.push_tail(node);
                },
                None => {},
            }
            self.time_remaining = 0;
            self.preempted = false;
            assert(self@.ring =~= rotate(old(self)@.ring));
        }
    }

    fn bottom_half_strict(&self) -> (strict: bool) {
        true
    }

    fn needs_timer(&self) -> (needed: bool) {
        true
    }
}

/// A process that an interrupt preempts in the middle of its timeslice is
/// selected again, and the timeslice it resumes with is what the timer read
/// when it was stopped. Where it had used some of its time, that is less
/// than what it was granted before.
pub proof fn preempted_process_resumes_with_remainder(
    model: RoundRobinState,
    table: Seq<Option<Process>>,
    now: u32,
    timer: TimerStatus,
)
    requires
        model.ring.len() > 0,
        !timer.overflowed,
        timer.remaining_us <= model.timeslice(),
    ensures
        ({
            let (selected_model, selected, timeslice) = RoundRobinSched::next_spec(
                model,
                table,
                now,
            );
            let time_used = elapsed_us(timeslice.unwrap(), timer);
            let stopped = RoundRobinSched::result_spec(
                selected_model,
                StoppedExecutingReason::KernelPreemption,
                Some(time_used),
            );
            &&& RoundRobinSched::next_spec(stopped, table, now) == (
                stopped,
                selected,
                Some(timer.remaining_us),
            )
            &&& time_used > 0 ==> stopped.time_remaining < timeslice.unwrap()
        }),
{
}

/// Whatever way an execution ends, the ring holds afterwards the processes
/// that it held, each once if it held each once.
pub proof fn result_keeps_each_process_once(
    model: RoundRobinState,
    reason: StoppedExecutingReason,
    time_used: Option<u32>,
)
    requires
        model.ring.no_duplicates(),
    ensures
        RoundRobinSched::result_spec(model, reason, time_used).ring.no_duplicates(),
        RoundRobinSched::result_spec(model, reason, time_used).ring.to_multiset()
            == model.ring.to_multiset(),
{
    rotate_keeps_distinct(model.ring);
    rotate_keeps_nodes(model.ring);
}

/// The time that round-robin grants to `process` over a run of executions
/// that end as `outcomes` tell, each with the reason for the stop and the
/// time used: the sum of the timeslices with which it is selected.
pub open spec fn granted(
    model: RoundRobinState,
    table: Seq<Option<Process>>,
    now: u32,
    outcomes: Seq<(StoppedExecutingReason, Option<u32>)>,
    process: AppId,
) -> int
    decreases outcomes.len(),
{
    if outcomes.len() == 0 {
        0
    } else {
        let (selected_model, selected, timeslice) = RoundRobinSched::next_spec(model, table, now);
        let stopped = RoundRobinSched::result_spec(selected_model, outcomes[0].0, outcomes[0].1);
        let share: int = if selected == Some(process) {
            timeslice.unwrap() as int
        } else {
            0
        };
        share + granted(stopped, table, now, outcomes.drop_first(), process)
    }
}

/// None of the `outcomes` is a preemption by the kernel.
pub open spec fn uninterrupted(outcomes: Seq<(StoppedExecutingReason, Option<u32>)>) -> bool {
    forall|i: int|
        0 <= i < outcomes.len() ==> (#[trigger] outcomes[i]).0
            != StoppedExecutingReason::KernelPreemption
}

/// Over a run without interrupts, a process nearer to the head of the ring
/// is granted as much time as one behind it, or one timeslice more.
proof fn granted_by_position(
    model: RoundRobinState,
    table: Seq<Option<Process>>,
    now: u32,
    outcomes: Seq<(StoppedExecutingReason, Option<u32>)>,
    i: int,
    j: int,
)
    requires
        model.ring.no_duplicates(),
        !model.preempted,
        uninterrupted(outcomes),
        0 <= i < j < model.ring.len(),
    ensures
        granted(model, table, now, outcomes, model.ring[j]) <= granted(
            model,
            table,
            now,
            outcomes,
            model.ring[i],
        ) <= granted(model, table, now, outcomes, model.ring[j]) + DEFAULT_TIMESLICE_US,
    decreases outcomes.len(),
{
    if outcomes.len() > 0 {
        let ring = model.ring;
        let stopped = RoundRobinSched::result_spec(model, outcomes[0].0, outcomes[0].1);
        let rest = outcomes.drop_first();
        rotate_keeps_distinct(ring);
        assert forall|k: int| 0 <= k < rest.len() implies (#[trigger] rest[k]).0
            != StoppedExecutingReason::KernelPreemption by {
        }
        if i == 0 {
            if j - 1 < ring.len() - 1 {
                granted_by_position(stopped, table, now, rest, j - 1, ring.len() - 1);
            }
        } else {
            granted_by_position(stopped, table, now, rest, i - 1, j - 1);
        }
    }
}

/// Round-robin is fair: over any run of executions without interrupts, the
/// time granted to one process of the ring and the time granted to another
/// differ by one timeslice at most.
pub proof fn round_robin_is_fair(
    model: RoundRobinState,
    table: Seq<Option<Process>>,
    now: u32,
    outcomes: Seq<(StoppedExecutingReason, Option<u32>)>,
    one: AppId,
    other: AppId,
)
    requires
        model.ring.no_duplicates(),
        !model.preempted,
        uninterrupted(outcomes),
        model.ring.contains(one),
        model.ring.contains(other),
    ensures
        granted(model, table, now, outcomes, one) - granted(model, table, now, outcomes, other)
            <= DEFAULT_TIMESLICE_US,
        granted(model, table, now, outcomes, other) - granted(model, table, now, outcomes, one)
            <= DEFAULT_TIMESLICE_US,
{
    let i = choose|i: int| 0 <= i < model.ring.len() && model.ring[i] == one;
    let j = choose|j: int| 0 <= j < model.ring.len() && model.ring[j] == other;
    if i < j {
        granted_by_position(model, table, now, outcomes, i, j);
    } else if j < i {
        granted_by_position(model, table, now, outcomes, j, i);
    }
}

} // verus!
