//! The execution engine: the decisions taken while one process is executed.
//!
//! Executing a process means switching to it, again and again, until there is
//! a reason to stop. The switch itself, the memory protection unit, the
//! system timer and the task queue of the process are the caller's. The
//! engine decides what is done next. The caller does it and reports what came
//! of it:
//!
//! * [`Execution::poll`] looks at the process and answers with a [`Step`];
//! * after [`Step::SwitchTo`] the caller reports to [`Execution::switched`],
//!   after [`Step::DequeueTask`] to [`Execution::dequeued`];
//! * after [`Step::DispatchTask`], [`Step::HandleSyscall`] and [`Step::Poll`]
//!   the caller polls again;
//! * [`Step::Stop`] ends the execution, and [`Execution::finish`] accounts
//!   for the time.

use crate::process::State;
use crate::sched::StoppedExecutingReason;
use vstd::prelude::*;

verus! {

/// A process is not switched to with less than this left of its timeslice,
/// in microseconds.
pub const MIN_QUANTA_THRESHOLD_US: u32 = 500;

/// Work that waits for the kernel.
#[derive(Clone, Copy, Debug, PartialEq, Eq, Structural)]
pub struct Pending {
    /// A hardware interrupt waits for its bottom half.
    pub interrupts: bool,
    /// A deferred call waits to be run.
    pub deferred_calls: bool,
}

impl Pending {
    pub open spec fn any(self) -> bool {
        self.interrupts || self.deferred_calls
    }
}

/// A reading of the system timer.
#[derive(Clone, Copy, Debug, PartialEq, Eq, Structural)]
pub struct TimerStatus {
    /// Microseconds left of the programmed timeslice.
    pub remaining_us: u32,
    /// The timer ran past the end of the timeslice.
    pub overflowed: bool,
}

/// Why a process gave the CPU back.
#[derive(Clone, Copy, Debug, PartialEq, Eq, Structural)]
pub enum ReturnReason {
    /// The process called `yield`.
    Yield,
    /// The process made another system call.
    Syscall,
    /// The system timer fired.
    TimesliceExpired,
    /// A hardware interrupt took the CPU.
    Interrupted,
}

/// What the engine asks of its caller next.
#[derive(Clone, Copy, Debug, PartialEq, Eq, Structural)]
pub enum Step {
    /// Install the memory protection of the process, arm the system timer if
    /// `arm_timer`, switch to the process, and on return disarm the timer and
    /// disable the memory protection. Then report to `switched`.
    SwitchTo { arm_timer: bool },
    /// Take one task from the queue of the process and report to `dequeued`.
    DequeueTask,
    /// Hand the task just dequeued to the process, then poll again.
    DispatchTask,
    /// Let the system call dispatcher handle the call, then poll again.
    HandleSyscall,
    /// Poll again.
    Poll,
    /// Stop executing the process. With `notify_expired`, tell the process
    /// first that its timeslice expired.
    Stop { reason: StoppedExecutingReason, notify_expired: bool },
}

impl Step {
    /// What a step tells of the execution, in terms of the reasons for which
    /// an execution stops: a stop tells its reason, and the dispatch of a
    /// task that a callback was handed to the process, after which the
    /// execution goes on. The other steps tell nothing.
    pub open spec fn reason(self) -> Option<StoppedExecutingReason> {
        match self {
            Step::Stop { reason, .. } => Some(reason),
            Step::DispatchTask => Some(StoppedExecutingReason::CallbackDispatched),
            _ => None,
        }
    }

    /// Whether the step ends the execution.
    pub open spec fn stops(self) -> bool {
        self is Stop
    }
}

/// Whether a timeslice is used up: the timer overflowed, or less than the
/// minimum is left. Without a timeslice nothing expires.
pub open spec fn timeslice_expired(timeslice: Option<u32>, timer: TimerStatus) -> bool {
    timeslice is Some && (timer.overflowed || timer.remaining_us < MIN_QUANTA_THRESHOLD_US)
}

/// Microseconds used of a timeslice when the timer reads `timer`: what was
/// programmed less what remains. A timer that overflowed, or that reads more
/// than was programmed, has run through the whole timeslice.
pub open spec fn elapsed_us(timeslice: u32, timer: TimerStatus) -> u32 {
    if timer.overflowed || timer.remaining_us > timeslice {
        timeslice
    } else {
        (timeslice - timer.remaining_us) as u32
    }
}

/// The execution of one process: the timeslice programmed for it, if any, and
/// whether it must make way for pending kernel work at once.
#[derive(Clone, Copy, Debug, PartialEq, Eq, Structural)]
pub struct Execution {
    pub timeslice: Option<u32>,
    pub bottom_half_strict: bool,
}

impl Execution {
    pub fn new(timeslice: Option<u32>, bottom_half_strict: bool) -> (execution: Execution)
        ensures
            execution.timeslice == timeslice,
            execution.bottom_half_strict == bottom_half_strict,
    {
        Execution { timeslice, bottom_half_strict }
    }

    /// What is done with a process in `state` while `pending` work waits for
    /// the kernel and the timer reads `timer`.
    ///
    /// Pending kernel work stops a strict execution. Else a used up timeslice
    /// stops it, before any switch. Else the state decides: a running process
    /// is switched to, one that awaits a callback gets a task dequeued, a
    /// stopped one stops the execution.
    pub open spec fn decide(self, pending: Pending, timer: TimerStatus, state: State) -> Step
        recommends
            state != State::Fault,
    {
        if self.bottom_half_strict && pending.any() {
            Step::Stop { reason: StoppedExecutingReason::KernelPreemption, notify_expired: false }
        } else if timeslice_expired(self.timeslice, timer) {
            Step::Stop { reason: StoppedExecutingReason::TimesliceExpired, notify_expired: true }
        } else if state == State::Running {
            Step::SwitchTo { arm_timer: self.timeslice is Some }
        } else if state.awaits_callback() {
            Step::DequeueTask
        } else {
            Step::Stop { reason: StoppedExecutingReason::StoppedOrFault, notify_expired: false }
        }
    }

    /// Decides what to do with the process, given the work that waits for the
    /// kernel, the reading of the timer and the state of the process. A
    /// faulted process must never get here.
    pub fn poll(&self, pending: Pending, timer: TimerStatus, state: State) -> (step: Step)
        requires
            state != State::Fault,
        ensures
            step == self.decide(pending, timer, state),
    {
        if self.bottom_half_strict && (pending.interrupts || pending.deferred_calls) {
            return Step::Stop {
                reason: StoppedExecutingReason::KernelPreemption,
                notify_expired: false,
            };
        }
        if self.timeslice.is_some() && (timer.overflowed || timer.remaining_us
            < MIN_QUANTA_THRESHOLD_US) {
            return Step::Stop {
                reason: StoppedExecutingReason::TimesliceExpired,
                notify_expired: true,
            };
        }
        match state {
            State::Running => Step::SwitchTo { arm_timer: self.timeslice.is_some() },
            State::Yielded | State::Unstarted => Step::DequeueTask,
            _ => Step::Stop {
                reason: StoppedExecutingReason::StoppedOrFault,
                notify_expired: false,
            },
        }
    }

    /// What follows a switch to the process that returned for `reason`.
    /// After a `yield`, and after a switch that names no reason, the process
    /// is looked at again.
    pub open spec fn after_switch(self, reason: Option<ReturnReason>) -> Step {
        match reason {
            Some(ReturnReason::Yield) => Step::Poll,
            Some(ReturnReason::Syscall) => Step::HandleSyscall,
            Some(ReturnReason::TimesliceExpired) => Step::Stop {
                reason: StoppedExecutingReason::TimesliceExpired,
                notify_expired: false,
            },
            Some(ReturnReason::Interrupted) => Step::Stop {
                reason: StoppedExecutingReason::KernelPreemption,
                notify_expired: false,
            },
            None => Step::Poll,
        }
    }

    /// Decides what follows a switch to the process, given why the process
    /// gave the CPU back.
    pub fn switched(&self, reason: Option<ReturnReason>) -> (step: Step)
        ensures
            step == self.after_switch(reason),
    {
        match reason {
            Some(ReturnReason::Yield) => Step::Poll,
            Some(ReturnReason::Syscall) => Step::HandleSyscall,
            Some(ReturnReason::TimesliceExpired) => Step::Stop {
                reason: StoppedExecutingReason::TimesliceExpired,
                notify_expired: false,
            },
            Some(ReturnReason::Interrupted) => Step::Stop {
                reason: StoppedExecutingReason::KernelPreemption,
                notify_expired: false,
            },
            None => Step::Poll,
        }
    }

    /// What follows an attempt to dequeue a task: with a task, it is
    /// dispatched; without one, the process has nothing to do.
    pub open spec fn after_dequeue(self, task_found: bool) -> Step {
        if task_found {
            Step::DispatchTask
        } else {
            Step::Stop { reason: StoppedExecutingReason::YieldedNoTask, notify_expired: false }
        }
    }

    /// Decides what follows an attempt to dequeue a task.
    pub fn dequeued(&self, task_found: bool) -> (step: Step)
        ensures
            step == self.after_dequeue(task_found),
    {
        if task_found {
            Step::DispatchTask
        } else {
            Step::Stop { reason: StoppedExecutingReason::YieldedNoTask, notify_expired: false }
        }
    }

    /// The outcome of an execution that stopped for `reason` when the timer
    /// read `timer`: the reason, and the time used of the timeslice. Without
    /// a timeslice no time is reported.
    pub fn finish(&self, reason: StoppedExecutingReason, timer: TimerStatus) -> (outcome: (
        StoppedExecutingReason,
        Option<u32>,
    ))
        ensures
            outcome == (reason, self.time_used(timer)),
    {
        match self.timeslice {
            Some(timeslice) => {
                if timer.overflowed || timer.remaining_us > timeslice {
                    (reason, Some(timeslice))
                } else {
                    (reason, Some(timeslice - timer.remaining_us))
                }
            },
            None => (reason, None),
        }
    }

    /// The time used of the timeslice when the timer reads `timer`.
    pub open spec fn time_used(self, timer: TimerStatus) -> Option<u32> {
        match self.timeslice {
            Some(timeslice) => Some(elapsed_us(timeslice, timer)),
            None => None,
        }
    }
}

/// The engine stops an execution for four reasons only: the process has
/// nothing to do, its timeslice expired, the kernel preempts it, or it is
/// stopped. That a callback was dispatched is told by a step after which the
/// execution goes on.
pub proof fn engine_stops_for_four_reasons(
    execution: Execution,
    pending: Pending,
    timer: TimerStatus,
    state: State,
    returned: Option<ReturnReason>,
    task_found: bool,
)
    ensures
        execution.decide(pending, timer, state).reason()
            != Some(StoppedExecutingReason::CallbackDispatched),
        execution.decide(pending, timer, state).reason()
            != Some(StoppedExecutingReason::YieldedNoTask),
        execution.after_switch(returned).stops() ==> {
            ||| execution.after_switch(returned).reason() == Some(
                StoppedExecutingReason::TimesliceExpired,
            )
            ||| execution.after_switch(returned).reason() == Some(
                StoppedExecutingReason::KernelPreemption,
            )
        },
        execution.after_dequeue(task_found).stops() <==> !task_found,
        execution.after_dequeue(task_found).reason() == if task_found {
            Some(StoppedExecutingReason::CallbackDispatched)
        } else {
            Some(StoppedExecutingReason::YieldedNoTask)
        },
{
}

/// An execution never reports more time than its timeslice.
pub proof fn time_used_is_within_timeslice(execution: Execution, timer: TimerStatus)
    ensures
        execution.time_used(timer) matches Some(used) ==> execution.timeslice matches Some(
            timeslice,
        ) && used <= timeslice,
        execution.timeslice is None ==> execution.time_used(timer) is None,
{
}

/// A timeslice below the minimum expires at once: as long as no kernel work
/// stops the execution first, the process is not switched to, whatever its
/// state, and is told that its timeslice expired.
pub proof fn short_timeslice_expires_without_switch(
    execution: Execution,
    pending: Pending,
    timer: TimerStatus,
    state: State,
)
    requires
        execution.timeslice matches Some(timeslice) && timeslice < MIN_QUANTA_THRESHOLD_US
            && timer.remaining_us <= timeslice,
        !(execution.bottom_half_strict && pending.any()),
    ensures
        execution.decide(pending, timer, state) == (Step::Stop {
            reason: StoppedExecutingReason::TimesliceExpired,
            notify_expired: true,
        }),
{
}

/// An overflow of the system timer counts as the end of the timeslice, and
/// the whole timeslice as used.
pub proof fn timer_overflow_is_expiry(
    execution: Execution,
    pending: Pending,
    timer: TimerStatus,
    state: State,
)
    requires
        execution.timeslice is Some,
        timer.overflowed,
        !(execution.bottom_half_strict && pending.any()),
    ensures
        execution.decide(pending, timer, state) == (Step::Stop {
            reason: StoppedExecutingReason::TimesliceExpired,
            notify_expired: true,
        }),
        execution.time_used(timer) == execution.timeslice,
{
}

} // verus!
