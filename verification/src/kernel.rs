//! The process table and the kernel loop.
//!
//! The kernel loop never returns. One turn of it services the pending
//! interrupts, runs deferred calls until an interrupt arrives, executes
//! processes as long as no kernel work waits, and puts the CPU to sleep when
//! nothing is left to do. What is done outside the kernel (to service, to
//! run, to execute, to sleep) is the caller's part. [`Kernel::kernel_loop_step`]
//! decides which of them is done next.

use crate::engine::{Execution, Pending, TimerStatus};
use crate::process::{all_blocked, runnable, AppId, Process, State};
use crate::sched::{Scheduler, StoppedExecutingReason};
use vstd::prelude::*;

verus! {

/// Where the kernel loop stands within one turn.
#[derive(Clone, Copy, Debug, PartialEq, Eq, Structural)]
pub enum Phase {
    /// The bottom halves of the pending interrupts are due.
    ServiceInterrupts,
    /// Deferred calls are run until none is left or an interrupt arrives.
    DrainDeferredCalls,
    /// Processes are executed until kernel work arrives or none is ready.
    Schedule,
    /// The CPU goes to sleep if nothing has arrived meanwhile. The caller
    /// takes the reading of pending work for this phase, and sleeps, with
    /// interrupts disabled.
    Sleep,
}

/// What the caller of the kernel loop does before its next step.
#[derive(Clone, Copy, Debug, PartialEq, Eq, Structural)]
pub enum LoopAction {
    /// Run the bottom halves of all pending interrupts.
    ServiceInterrupts,
    /// Run one deferred call.
    RunDeferredCall,
    /// Execute the process for the timeslice, then hand the outcome to the
    /// policy.
    RunProcess { appid: AppId, timeslice: Option<u32>, bottom_half_strict: bool },
    /// Nothing: the process that the policy selected cannot be executed, and
    /// the policy has been told that it is stopped.
    Skip { appid: AppId },
    /// Sleep until the next interrupt.
    Sleep,
    /// Nothing.
    Proceed,
}

/// Whether the process that `appid` names can be handed to the execution
/// engine: its slot holds a process, and the process has not faulted.
pub open spec fn executable(table: Seq<Option<Process>>, appid: AppId) -> bool {
    &&& appid.idx < table.len()
    &&& table[appid.idx as int] matches Some(process)
    &&& process.state != State::Fault
}

/// One step of the kernel loop in `phase`, with `pending` work, at alarm
/// reading `now`, over the process table `table` and the policy state
/// `model`: what the caller does, the phase that follows, and the state of
/// the policy.
pub open spec fn loop_step<S: Scheduler>(
    table: Seq<Option<Process>>,
    phase: Phase,
    pending: Pending,
    now: u32,
    model: S::V,
) -> (LoopAction, Phase, S::V) {
    match phase {
        Phase::ServiceInterrupts => (
            LoopAction::ServiceInterrupts,
            Phase::DrainDeferredCalls,
            model,
        ),
        Phase::DrainDeferredCalls => if !pending.interrupts && pending.deferred_calls {
            (LoopAction::RunDeferredCall, Phase::DrainDeferredCalls, model)
        } else {
            (LoopAction::Proceed, Phase::Schedule, model)
        },
        Phase::Schedule => if pending.any() || all_blocked(table) {
            (LoopAction::Proceed, Phase::Sleep, model)
        } else {
            let (selected_model, selected, timeslice) = S::next_spec(model, table, now);
            match selected {
                Some(appid) => if executable(table, appid) {
                    (
                        LoopAction::RunProcess {
                            appid,
                            timeslice,
                            bottom_half_strict: S::strict(),
                        },
                        Phase::Schedule,
                        selected_model,
                    )
                } else {
                    (
                        LoopAction::Skip { appid },
                        Phase::Schedule,
                        S::result_spec(
                            selected_model,
                            StoppedExecutingReason::StoppedOrFault,
                            None,
                        ),
                    )
                },
                None => (LoopAction::Proceed, Phase::Sleep, selected_model),
            }
        },
        Phase::Sleep => if !pending.any() && all_blocked(table) {
            (LoopAction::Sleep, Phase::ServiceInterrupts, model)
        } else {
            (LoopAction::Proceed, Phase::ServiceInterrupts, model)
        },
    }
}

/// The kernel's table of processes, one slot per process. A slot may be
/// empty. The view is the table as a sequence of slots.
pub struct Kernel {
    processes: Vec<Option<Process>>,
}

impl View for Kernel {
    type V = Seq<Option<Process>>;

    closed spec fn view(&self) -> Seq<Option<Process>> {
        self.processes@
    }
}

impl Kernel {
    pub fn new(processes: Vec<Option<Process>>) -> (kernel: Kernel)
        ensures
            kernel@ == processes@,
    {
        Kernel { processes }
    }

    /// Number of slots in the table.
    pub fn number_of_slots(&self) -> (n: usize)
        ensures
            n == self@.len(),
    {
        self.processes.len()
    }

    /// The process that `appid` names, if its slot holds one.
    pub fn process(&self, appid: AppId) -> (process: Option<Process>)
        ensures
            process == if appid.idx < self@.len() {
                self@[appid.idx as int]
            } else {
                None
            },
    {
        if appid.idx < self.processes.len() {
            self.processes[appid.idx]
        } else {
            None
        }
    }

    /// Records what became of the process in slot `appid`. A slot outside the
    /// table is left alone.
    pub fn set_process(&mut self, appid: AppId, process: Option<Process>)
        ensures
            final(self)@ == if appid.idx < old(self)@.len() {
                old(self)@.update(appid.idx as int, process)
            } else {
                old(self)@
            },
    {
        if appid.idx < self.processes.len() {
            self.processes.set(appid.idx, process);
        }
    }

    /// Whether the process that `appid` names exists and is ready.
    pub fn process_ready(&self, appid: AppId) -> (ready: bool)
        ensures
            ready == runnable(self@, appid.idx as int),
    {
        match self.process(appid) {
            Some(process) => process.ready(),
            None => false,
        }
    }

    /// Whether the process that `appid` names can be handed to the execution
    /// engine.
    pub fn process_executable(&self, appid: AppId) -> (executable: bool)
        ensures
            executable == self::executable(self@, appid),
    {
        match self.process(appid) {
            Some(process) => process.state != State::Fault,
            None => false,
        }
    }

    /// Whether no process is ready, so that the CPU may sleep.
    pub fn processes_blocked(&self) -> (blocked: bool)
        ensures
            blocked == all_blocked(self@),
    {
        let mut i: usize = 0;
        while i < self.processes.len()
            invariant
                i <= self.processes.len(),
                forall|j: int| 0 <= j < i ==> !runnable(self@, j),
            decreases self.processes.len() - i,
        {
            if self.process_ready(AppId::new(i)) {
                return false;
            }
            i = i + 1;
        }
        true
    }

    /// Takes one step of the kernel loop: decides from the phase, the
    /// pending work and the process table what the caller does next, and
    /// consults the policy where a process is to be selected.
    ///
    /// The caller starts in [`Phase::ServiceInterrupts`], carries out the
    /// action returned, and calls again with the phase returned and a fresh
    /// reading of the pending work. After [`LoopAction::RunProcess`] it
    /// hands the outcome of the execution to the policy first.
    pub fn kernel_loop_step<S: Scheduler>(
        &self,
        phase: Phase,
        pending: Pending,
        now: u32,
        scheduler: &mut S,
    ) -> (next: (LoopAction, Phase))
        requires
            S::inv(old(scheduler)@),
        ensures
            S::inv(final(scheduler)@),
            (next.0, next.1, final(scheduler)@) == loop_step::<S>(
                self@,
                phase,
                pending,
                now,
                old(scheduler)@,
            ),
    {
        match phase {
            Phase::ServiceInterrupts => (LoopAction::ServiceInterrupts, Phase::DrainDeferredCalls),
            Phase::DrainDeferredCalls => {
                if !pending.interrupts && pending.deferred_calls {
                    (LoopAction::RunDeferredCall, Phase::DrainDeferredCalls)
                } else {
                    (LoopAction::Proceed, Phase::Schedule)
                }
            },
            Phase::Schedule => {
                if pending.interrupts || pending.deferred_calls || self.processes_blocked() {
                    return (LoopAction::Proceed, Phase::Sleep);
                }
                let (selected, timeslice) = scheduler.next(self, now);
                match selected {
                    Some(appid) => {
                        if self.process_executable(appid) {
                            let bottom_half_strict = scheduler.bottom_half_strict();
                            (
                                LoopAction::RunProcess { appid, timeslice, bottom_half_strict },
                                Phase::Schedule,
                            )
                        } else {
                            scheduler.result(StoppedExecutingReason::StoppedOrFault, None);
                            (LoopAction::Skip { appid }, Phase::Schedule)
                        }
                    },
                    None => (LoopAction::Proceed, Phase::Sleep),
                }
            },
            Phase::Sleep => {
                if !pending.interrupts && !pending.deferred_calls && self.processes_blocked() {
                    (LoopAction::Sleep, Phase::ServiceInterrupts)
                } else {
                    (LoopAction::Proceed, Phase::ServiceInterrupts)
                }
            },
        }
    }

    /// Hands the outcome of an execution to the policy: the reason for which
    /// the process stopped, and the time that it used of its timeslice when
    /// the timer reads `timer`.
    pub fn process_stopped<S: Scheduler>(
        &self,
        scheduler: &mut S,
        execution: &Execution,
        reason: StoppedExecutingReason,
        timer: TimerStatus,
    )
        requires
            S::inv(old(scheduler)@),
        ensures
            S::inv(final(scheduler)@),
            final(scheduler)@ == S::result_spec(
                old(scheduler)@,
                reason,
                execution.time_used(timer),
            ),
    {
        let (reason, time_used) = execution.finish(reason, timer);
        scheduler.result(reason, time_used);
    }
}

/// No faulted process is handed to the execution engine: a process that the
/// kernel loop has executed exists and is not in state `Fault`.
pub proof fn faulted_process_never_runs<S: Scheduler>(
    table: Seq<Option<Process>>,
    phase: Phase,
    pending: Pending,
    now: u32,
    model: S::V,
)
    ensures
        loop_step::<S>(table, phase, pending, now, model).0 matches LoopAction::RunProcess {
            appid,
            ..
        } ==> executable(table, appid) && !crate::process::faulted(table, appid.idx as int),
{
}

/// While a process is ready and no kernel work is pending, the kernel loop
/// does not sleep; and where the policy then selects a process that can be
/// executed, that process is executed.
pub proof fn ready_process_keeps_kernel_awake<S: Scheduler>(
    table: Seq<Option<Process>>,
    phase: Phase,
    now: u32,
    model: S::V,
)
    requires
        !all_blocked(table),
    ensures
        ({
            let quiet = Pending { interrupts: false, deferred_calls: false };
            let step = loop_step::<S>(table, phase, quiet, now, model);
            let selection = S::next_spec(model, table, now);
            &&& step.0 != LoopAction::Sleep
            &&& phase == Phase::Schedule ==> (selection.1 matches Some(appid) ==> executable(
                table,
                appid,
            ) ==> step.0 == LoopAction::RunProcess {
                appid,
                timeslice: selection.2,
                bottom_half_strict: S::strict(),
            })
        }),
{
}

/// With no process ready and no kernel work pending, the kernel loop goes to
/// sleep within one turn, whatever the phase it is in, and without touching
/// the policy: from the start of a turn its fourth action is to sleep.
pub proof fn idle_kernel_sleeps<S: Scheduler>(table: Seq<Option<Process>>, now: u32, model: S::V)
    requires
        all_blocked(table),
    ensures
        ({
            let quiet = Pending { interrupts: false, deferred_calls: false };
            let first = loop_step::<S>(table, Phase::ServiceInterrupts, quiet, now, model);
            let second = loop_step::<S>(table, first.1, quiet, now, first.2);
            let third = loop_step::<S>(table, second.1, quiet, now, second.2);
            let fourth = loop_step::<S>(table, third.1, quiet, now, third.2);
            &&& first.0 == LoopAction::ServiceInterrupts
            &&& second == (LoopAction::Proceed, Phase::Schedule, model)
            &&& third == (LoopAction::Proceed, Phase::Sleep, model)
            &&& fourth == (LoopAction::Sleep, Phase::ServiceInterrupts, model)
        }),
{
}

} // verus!
