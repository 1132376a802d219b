//! The policy interface: what every scheduling policy offers to the kernel
//! loop.

use crate::kernel::Kernel;
use crate::process::{AppId, Process};
use vstd::prelude::*;

pub mod cooperative;
pub mod mlfq;
pub mod priority;
pub mod round_robin;

verus! {

/// Why the execution engine stopped executing a process.
#[derive(Clone, Copy, Debug, PartialEq, Eq, Structural)]
pub enum StoppedExecutingReason {
    /// The process yielded and no callback is queued for it.
    YieldedNoTask,
    /// A callback was handed to the process.
    CallbackDispatched,
    /// The process used up its timeslice.
    TimesliceExpired,
    /// A hardware interrupt or a deferred call needs the kernel.
    KernelPreemption,
    /// The process is in a state in which it cannot run.
    StoppedOrFault,
}

/// A scheduling policy.
///
/// The view of a policy is its mathematical state. What `setup`, `next` and
/// `result` do is fixed by three functions on that state, so that all that
/// can be known of a policy is known to code that is generic over it.
pub trait Scheduler: View {
    /// What holds of the state of a policy at all times.
    spec fn inv(model: Self::V) -> bool;

    /// Whether the policy needs a system timer that can preempt a process.
    spec fn preemptive() -> bool;

    /// Whether the engine must stop a process of this policy as soon as an
    /// interrupt or a deferred call is pending.
    spec fn strict() -> bool;

    /// The state after `setup` at alarm reading `now`.
    spec fn setup_spec(model: Self::V, now: u32) -> Self::V;

    /// The state after `next`, the process selected and its timeslice.
    spec fn next_spec(model: Self::V, table: Seq<Option<Process>>, now: u32) -> (
        Self::V,
        Option<AppId>,
        Option<u32>,
    );

    /// The state after `result`.
    spec fn result_spec(
        model: Self::V,
        reason: StoppedExecutingReason,
        time_used: Option<u32>,
    ) -> Self::V;

    /// Prepares the policy before the kernel loop starts. `now` is the alarm's
    /// reading, `timer_is_dummy` says that the system timer cannot preempt.
    fn setup(&mut self, now: u32, timer_is_dummy: bool)
        requires
            Self::inv(old(self)@),
            Self::preemptive() ==> !timer_is_dummy,
        ensures
            Self::inv(final(self)@),
            final(self)@ == Self::setup_spec(old(self)@, now),
    ;

    /// Selects the process to run next and the timeslice to grant it, in
    /// microseconds. Selects none when the policy finds no process eligible.
    fn next(&mut self, kernel: &Kernel, now: u32) -> (selection: (Option<AppId>, Option<u32>))
        requires
            Self::inv(old(self)@),
        ensures
            Self::inv(final(self)@),
            (final(self)@, selection.0, selection.1) == Self::next_spec(old(self)@, kernel@, now),
    ;

    /// Takes in how the execution of the process last selected ended, and the
    /// microseconds it used of its timeslice if one was set.
    fn result(&mut self, reason: StoppedExecutingReason, time_used: Option<u32>)
        requires
            Self::inv(old(self)@),
        ensures
            Self::inv(final(self)@),
            final(self)@ == Self::result_spec(old(self)@, reason, time_used),
    ;

    fn bottom_half_strict(&self) -> (strict: bool)
        ensures
            strict == Self::strict(),
    ;

    /// Whether the policy needs a system timer that can preempt a process.
    /// Such a policy must not be set up on a platform whose timer is a
    /// stand-in.
    fn needs_timer(&self) -> (needed: bool)
        ensures
            needed == Self::preemptive(),
    ;
}

} // verus!
