use mcu_kernel::components::priority::PriorityComponent;
use mcu_kernel::kernel::Kernel;
use mcu_kernel::process::{AppId, Process, State};
use mcu_kernel::sched::priority::{PrioritySched, DEFAULT_TIMESLICE_US};
use mcu_kernel::sched::{Scheduler, StoppedExecutingReason};

#[test]
fn priority_selects_first_ready_process() {
    let kernel = Kernel::new(vec![
        Some(Process::new(State::Yielded, 0)),
        None,
        Some(Process::new(State::Running, 0)),
        Some(Process::new(State::Running, 0)),
    ]);
    let mut sched = PrioritySched::new();
    assert_eq!(sched.next(&kernel, 0), (Some(AppId::new(2)), Some(10000)));
    assert_eq!(DEFAULT_TIMESLICE_US, 10000);
}

#[test]
fn priority_selects_nothing_when_all_are_blocked() {
    let kernel = Kernel::new(vec![
        Some(Process::new(State::Yielded, 0)),
        Some(Process::new(State::Fault, 3)),
        Some(Process::new(State::StoppedRunning, 1)),
        None,
    ]);
    let mut sched = PrioritySched::new();
    assert_eq!(sched.next(&kernel, 0), (None, None));
    let empty = Kernel::new(Vec::new());
    assert_eq!(sched.next(&empty, 0), (None, None));
}

#[test]
fn priority_never_selects_a_faulted_process() {
    let kernel = Kernel::new(vec![
        Some(Process::new(State::Fault, 1)),
        Some(Process::new(State::StoppedFaulted, 1)),
        Some(Process::new(State::Unstarted, 1)),
    ]);
    let mut sched = PrioritySched::new();
    assert_eq!(sched.next(&kernel, 0).0, Some(AppId::new(2)));
}

#[test]
fn priority_result_changes_nothing() {
    let kernel = Kernel::new(vec![
        Some(Process::new(State::Running, 0)),
        Some(Process::new(State::Running, 0)),
    ]);
    let mut sched = PrioritySched::new();
    sched.setup(0, true);
    for reason in [
        StoppedExecutingReason::TimesliceExpired,
        StoppedExecutingReason::KernelPreemption,
        StoppedExecutingReason::YieldedNoTask,
    ] {
        sched.result(reason, Some(10000));
        assert_eq!(sched.next(&kernel, 0).0, Some(AppId::new(0)));
    }
    assert!(sched.bottom_half_strict());
}

#[test]
fn scenario_priority_high_and_low() {
    // Table order {high, low}, both running.
    let high = AppId::new(0);
    let low = AppId::new(1);
    let mut kernel = Kernel::new(vec![
        Some(Process::new(State::Running, 0)),
        Some(Process::new(State::Running, 0)),
    ]);
    let mut sched = PriorityComponent::new(&kernel).finalize();
    assert_eq!(sched.next(&kernel, 0).0, Some(high));

    // The high process yields with no task.
    kernel.set_process(high, Some(Process::new(State::Yielded, 0)));
    sched.result(StoppedExecutingReason::YieldedNoTask, Some(50));
    assert_eq!(sched.next(&kernel, 0).0, Some(low));

    // A callback makes the high process ready while the low one executes.
    kernel.set_process(high, Some(Process::new(State::Yielded, 1)));
    sched.result(StoppedExecutingReason::KernelPreemption, Some(400));
    assert_eq!(sched.next(&kernel, 0).0, Some(high));
}
