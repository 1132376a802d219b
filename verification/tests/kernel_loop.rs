use mcu_kernel::engine::Pending;
use mcu_kernel::kernel::{Kernel, LoopAction, Phase};
use mcu_kernel::process::{AppId, Process, State};
use mcu_kernel::sched::cooperative::{CoopProcessNode, CooperativeSched};
use mcu_kernel::sched::mlfq::{MLFQProcessNode, MLFQSched};
use mcu_kernel::sched::priority::PrioritySched;
use mcu_kernel::sched::round_robin::{RoundRobinProcessNode, RoundRobinSched};
use mcu_kernel::sched::{Scheduler, StoppedExecutingReason};

const QUIET: Pending = Pending { interrupts: false, deferred_calls: false };
const INTERRUPT: Pending = Pending { interrupts: true, deferred_calls: false };
const DEFERRED: Pending = Pending { interrupts: false, deferred_calls: true };
const BOTH: Pending = Pending { interrupts: true, deferred_calls: true };

fn table(states: &[(State, usize)]) -> Kernel {
    let mut processes = Vec::new();
    for (state, tasks) in states {
        processes.push(Some(Process::new(*state, *tasks)));
    }
    Kernel::new(processes)
}

fn coop(ids: &[usize]) -> CooperativeSched {
    let mut sched = CooperativeSched::new();
    for id in ids {
        sched.processes.push_tail(CoopProcessNode::new(AppId::new(*id)));
    }
    sched
}

#[test]
fn process_is_ready_when_running_or_called_back() {
    assert!(Process::new(State::Running, 0).ready());
    assert!(Process::new(State::Yielded, 1).ready());
    assert!(Process::new(State::Unstarted, 1).ready());
    assert!(!Process::new(State::Yielded, 0).ready());
    assert!(!Process::new(State::Unstarted, 0).ready());
    assert!(!Process::new(State::Fault, 2).ready());
    assert!(!Process::new(State::StoppedRunning, 2).ready());
    assert!(!Process::new(State::StoppedYielded, 2).ready());
    assert!(!Process::new(State::StoppedFaulted, 2).ready());
    assert_eq!(Process::new(State::Yielded, 3).get_state(), State::Yielded);
}

#[test]
fn kernel_table_lookup_and_update() {
    let mut kernel = Kernel::new(vec![Some(Process::new(State::Running, 0)), None]);
    assert_eq!(kernel.number_of_slots(), 2);
    assert_eq!(kernel.process(AppId::new(0)), Some(Process::new(State::Running, 0)));
    assert_eq!(kernel.process(AppId::new(1)), None);
    assert_eq!(kernel.process(AppId::new(2)), None);
    assert!(kernel.process_ready(AppId::new(0)));
    assert!(!kernel.process_ready(AppId::new(1)));
    assert!(!kernel.process_ready(AppId::new(7)));
    assert!(!kernel.processes_blocked());

    kernel.set_process(AppId::new(0), Some(Process::new(State::Fault, 0)));
    assert!(kernel.processes_blocked());
    assert!(!kernel.process_executable(AppId::new(0)));
    kernel.set_process(AppId::new(1), Some(Process::new(State::StoppedYielded, 0)));
    assert!(kernel.process_executable(AppId::new(1)));
    assert!(!kernel.process_executable(AppId::new(2)));
    kernel.set_process(AppId::new(2), Some(Process::new(State::Running, 0)));
    assert_eq!(kernel.number_of_slots(), 2);
    assert!(kernel.processes_blocked());
    assert!(Kernel::new(Vec::new()).processes_blocked());
}

#[test]
fn policies_tell_whether_they_need_a_timer() {
    assert!(!CooperativeSched::new().needs_timer());
    assert!(!PrioritySched::new().needs_timer());
    assert!(RoundRobinSched::new().needs_timer());
    assert!(MLFQSched::new(1000).needs_timer());
}

#[test]
fn kernel_loop_services_interrupts_first() {
    let kernel = table(&[(State::Running, 0)]);
    let mut sched = coop(&[0]);
    for pending in [QUIET, INTERRUPT, DEFERRED, BOTH] {
        assert_eq!(
            kernel.kernel_loop_step(Phase::ServiceInterrupts, pending, 0, &mut sched),
            (LoopAction::ServiceInterrupts, Phase::DrainDeferredCalls)
        );
    }
}

#[test]
fn kernel_loop_drains_deferred_calls_until_an_interrupt() {
    let kernel = table(&[(State::Running, 0)]);
    let mut sched = coop(&[0]);
    let phase = Phase::DrainDeferredCalls;
    assert_eq!(
        kernel.kernel_loop_step(phase, DEFERRED, 0, &mut sched),
        (LoopAction::RunDeferredCall, Phase::DrainDeferredCalls)
    );
    for pending in [QUIET, INTERRUPT, BOTH] {
        assert_eq!(
            kernel.kernel_loop_step(phase, pending, 0, &mut sched),
            (LoopAction::Proceed, Phase::Schedule)
        );
    }
}

#[test]
fn kernel_loop_runs_the_selected_process() {
    let kernel = table(&[(State::Running, 0), (State::Running, 0)]);
    let mut sched = RoundRobinSched::new();
    sched.processes.push_tail(RoundRobinProcessNode::new(AppId::new(1)));
    sched.processes.push_tail(RoundRobinProcessNode::new(AppId::new(0)));
    assert_eq!(
        kernel.kernel_loop_step(Phase::Schedule, QUIET, 0, &mut sched),
        (
            LoopAction::RunProcess {
                appid: AppId::new(1),
                timeslice: Some(10000),
                bottom_half_strict: true
            },
            Phase::Schedule
        )
    );
    let mut mlfq = MLFQSched::new(1000);
    mlfq.processes[1].push_tail(MLFQProcessNode::new(AppId::new(0)));
    mlfq.setup(0, false);
    assert_eq!(
        kernel.kernel_loop_step(Phase::Schedule, QUIET, 4999, &mut mlfq),
        (
            LoopAction::RunProcess {
                appid: AppId::new(0),
                timeslice: Some(20000),
                bottom_half_strict: false
            },
            Phase::Schedule
        )
    );
}

#[test]
fn kernel_loop_leaves_scheduling_for_kernel_work() {
    let kernel = table(&[(State::Running, 0)]);
    let mut sched = coop(&[0]);
    for pending in [INTERRUPT, DEFERRED, BOTH] {
        assert_eq!(
            kernel.kernel_loop_step(Phase::Schedule, pending, 0, &mut sched),
            (LoopAction::Proceed, Phase::Sleep)
        );
        assert_eq!(
            kernel.kernel_loop_step(Phase::Sleep, pending, 0, &mut sched),
            (LoopAction::Proceed, Phase::ServiceInterrupts)
        );
    }
}

#[test]
fn kernel_loop_does_not_sleep_while_a_process_is_ready() {
    let kernel = table(&[(State::Yielded, 0), (State::Yielded, 1)]);
    let mut sched = PrioritySched::new();
    assert_eq!(
        kernel.kernel_loop_step(Phase::Sleep, QUIET, 0, &mut sched),
        (LoopAction::Proceed, Phase::ServiceInterrupts)
    );
    assert_eq!(
        kernel.kernel_loop_step(Phase::Schedule, QUIET, 0, &mut sched),
        (
            LoopAction::RunProcess {
                appid: AppId::new(1),
                timeslice: Some(10000),
                bottom_half_strict: true
            },
            Phase::Schedule
        )
    );
}

#[test]
fn kernel_loop_never_runs_a_faulted_process() {
    let kernel = table(&[(State::Fault, 0), (State::Running, 0)]);
    let mut sched = coop(&[0, 1]);
    assert_eq!(
        kernel.kernel_loop_step(Phase::Schedule, QUIET, 0, &mut sched),
        (LoopAction::Skip { appid: AppId::new(0) }, Phase::Schedule)
    );
    assert_eq!(
        kernel.kernel_loop_step(Phase::Schedule, QUIET, 0, &mut sched),
        (
            LoopAction::RunProcess {
                appid: AppId::new(1),
                timeslice: None,
                bottom_half_strict: true
            },
            Phase::Schedule
        )
    );
}

#[test]
fn kernel_loop_skips_a_process_that_is_not_there() {
    let kernel = Kernel::new(vec![None, Some(Process::new(State::Running, 0))]);
    let mut sched = RoundRobinSched::new();
    sched.processes.push_tail(RoundRobinProcessNode::new(AppId::new(0)));
    sched.processes.push_tail(RoundRobinProcessNode::new(AppId::new(5)));
    sched.processes.push_tail(RoundRobinProcessNode::new(AppId::new(1)));
    assert_eq!(
        kernel.kernel_loop_step(Phase::Schedule, QUIET, 0, &mut sched),
        (LoopAction::Skip { appid: AppId::new(0) }, Phase::Schedule)
    );
    assert_eq!(
        kernel.kernel_loop_step(Phase::Schedule, QUIET, 0, &mut sched),
        (LoopAction::Skip { appid: AppId::new(5) }, Phase::Schedule)
    );
    assert_eq!(
        kernel.kernel_loop_step(Phase::Schedule, QUIET, 0, &mut sched).0,
        LoopAction::RunProcess {
            appid: AppId::new(1),
            timeslice: Some(10000),
            bottom_half_strict: true
        }
    );
}

#[test]
fn kernel_loop_runs_a_head_that_is_not_ready() {
    // The cooperative policy selects its head whether or not it is ready.
    let kernel = table(&[(State::Yielded, 0), (State::Running, 0)]);
    let mut sched = coop(&[0, 1]);
    assert_eq!(
        kernel.kernel_loop_step(Phase::Schedule, QUIET, 0, &mut sched).0,
        LoopAction::RunProcess { appid: AppId::new(0), timeslice: None, bottom_half_strict: true }
    );
}

#[test]
fn kernel_loop_leaves_scheduling_when_policy_selects_nothing() {
    let kernel = table(&[(State::Running, 0)]);
    let mut sched = CooperativeSched::new();
    assert_eq!(
        kernel.kernel_loop_step(Phase::Schedule, QUIET, 0, &mut sched),
        (LoopAction::Proceed, Phase::Sleep)
    );
}

#[test]
fn scenario_idle_kernel_sleeps_once() {
    // All processes have yielded, no task is queued, no interrupt pending.
    let kernel = table(&[(State::Yielded, 0), (State::Yielded, 0), (State::Yielded, 0)]);
    let mut sched = coop(&[0, 1, 2]);
    let mut phase = Phase::ServiceInterrupts;
    let mut actions = Vec::new();
    for _ in 0..4 {
        let (action, next) = kernel.kernel_loop_step(phase, QUIET, 0, &mut sched);
        actions.push(action);
        phase = next;
    }
    assert_eq!(
        actions,
        vec![
            LoopAction::ServiceInterrupts,
            LoopAction::Proceed,
            LoopAction::Proceed,
            LoopAction::Sleep
        ]
    );
    assert_eq!(phase, Phase::ServiceInterrupts);
    assert_eq!(sched.processes.len(), 3);
    assert_eq!(sched.processes.get(0).appid, AppId::new(0));
}

#[test]
fn kernel_loop_does_not_sleep_when_an_interrupt_arrived() {
    let kernel = table(&[(State::Yielded, 0)]);
    let mut sched = coop(&[0]);
    for pending in [INTERRUPT, DEFERRED, BOTH] {
        assert_eq!(
            kernel.kernel_loop_step(Phase::Sleep, pending, 0, &mut sched),
            (LoopAction::Proceed, Phase::ServiceInterrupts)
        );
    }
    assert_eq!(
        kernel.kernel_loop_step(Phase::Sleep, QUIET, 0, &mut sched),
        (LoopAction::Sleep, Phase::ServiceInterrupts)
    );
}

#[test]
fn kernel_loop_full_turn_with_one_process() {
    let mut kernel = table(&[(State::Running, 0)]);
    let mut sched = coop(&[0]);
    let mut phase = Phase::ServiceInterrupts;
    let mut actions = Vec::new();
    let readings = [INTERRUPT, DEFERRED, DEFERRED, QUIET, QUIET, QUIET, QUIET];
    for (turn, pending) in readings.iter().enumerate() {
        let (action, next) = kernel.kernel_loop_step(phase, *pending, 0, &mut sched);
        if let LoopAction::RunProcess { appid, .. } = action {
            kernel.set_process(appid, Some(Process::new(State::Yielded, 0)));
            sched.result(StoppedExecutingReason::YieldedNoTask, None);
        }
        actions.push((turn, action));
        phase = next;
    }
    assert_eq!(
        actions,
        vec![
            (0, LoopAction::ServiceInterrupts),
            (1, LoopAction::RunDeferredCall),
            (2, LoopAction::RunDeferredCall),
            (3, LoopAction::Proceed),
            (
                4,
                LoopAction::RunProcess {
                    appid: AppId::new(0),
                    timeslice: None,
                    bottom_half_strict: true
                }
            ),
            (5, LoopAction::Proceed),
            (6, LoopAction::Sleep),
        ]
    );
}
