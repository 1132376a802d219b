//! Processes as the scheduler observes them.
//!
//! The scheduler never changes a process. System calls, interrupt bottom
//! halves and the fault handler do; what they leave behind is recorded in a
//! [`Process`] and read here.

use vstd::prelude::*;

verus! {

/// Identifier of a process: its slot in the process table.
#[derive(Clone, Copy, Debug, PartialEq, Eq, Structural)]
pub struct AppId {
    pub idx: usize,
}

impl AppId {
    pub fn new(idx: usize) -> (id: AppId)
        ensures
            id.idx == idx,
    {
        AppId { idx }
    }
}

/// Where a process stands in its life cycle.
#[derive(Clone, Copy, Debug, PartialEq, Eq, Structural)]
pub enum State {
    /// Loaded, never executed.
    Unstarted,
    /// Expects to hold the CPU.
    Running,
    /// Gave up the CPU and waits for a callback.
    Yielded,
    /// Faulted. Never to be executed.
    Fault,
    /// Halted by an administrator while running.
    StoppedRunning,
    /// Halted by an administrator while yielded.
    StoppedYielded,
    /// Halted after a fault.
    StoppedFaulted,
}

impl State {
    /// A state in which the process waits for a callback to be handed to it.
    pub open spec fn awaits_callback(self) -> bool {
        self == State::Yielded || self == State::Unstarted
    }
}

/// One entry of the process table: the state of a process and the number of
/// tasks queued for it.
#[derive(Clone, Copy, Debug, PartialEq, Eq, Structural)]
pub struct Process {
    pub state: State,
    pub pending_tasks: usize,
}

impl Process {
    pub fn new(state: State, pending_tasks: usize) -> (process: Process)
        ensures
            process.state == state,
            process.pending_tasks == pending_tasks,
    {
        Process { state, pending_tasks }
    }

    /// A process is ready when it is running, or when it waits for a callback
    /// and one is queued. A faulted or stopped process is never ready.
    pub open spec fn is_ready(&self) -> bool {
        self.state == State::Running || (self.state.awaits_callback() && self.pending_tasks > 0)
    }

    pub fn get_state(&self) -> (state: State)
        ensures
            state == self.state,
    {
        self.state
    }

    #[verifier::when_used_as_spec(is_ready)]
    pub fn ready(&self) -> (ready: bool)
        ensures
            ready == self.is_ready(),
    {
        match self.state {
            State::Running => true,
            State::Yielded | State::Unstarted => self.pending_tasks > 0,
            _ => false,
        }
    }
}

/// The process in slot `i` of `table` exists and is ready.
pub open spec fn runnable(table: Seq<Option<Process>>, i: int) -> bool {
    &&& 0 <= i < table.len()
    &&& table[i] matches Some(process)
    &&& process.is_ready()
}

/// No process of `table` is ready.
pub open spec fn all_blocked(table: Seq<Option<Process>>) -> bool {
    forall|i: int| !runnable(table, i)
}

/// The process in slot `i` of `table` exists and is in state `Fault`.
pub open spec fn faulted(table: Seq<Option<Process>>, i: int) -> bool {
    &&& 0 <= i < table.len()
    &&& table[i] matches Some(process)
    &&& process.state == State::Fault
}

} // verus!
