use mcu_kernel::engine::{
    Execution, Pending, ReturnReason, Step, TimerStatus, MIN_QUANTA_THRESHOLD_US,
};
use mcu_kernel::process::State;
use mcu_kernel::sched::StoppedExecutingReason;

const QUIET: Pending = Pending { interrupts: false, deferred_calls: false };

fn reading(remaining_us: u32) -> TimerStatus {
    TimerStatus { remaining_us, overflowed: false }
}

fn stop(reason: StoppedExecutingReason) -> Step {
    Step::Stop { reason, notify_expired: false }
}

#[test]
fn engine_minimum_threshold() {
    assert_eq!(MIN_QUANTA_THRESHOLD_US, 500);
}

#[test]
fn engine_running_process_is_switched_to() {
    let timed = Execution::new(Some(10000), true);
    let step = timed.poll(QUIET, reading(10000), State::Running);
    assert_eq!(step, Step::SwitchTo { arm_timer: true });
    let untimed = Execution::new(None, true);
    let step = untimed.poll(QUIET, reading(0), State::Running);
    assert_eq!(step, Step::SwitchTo { arm_timer: false });
}

#[test]
fn engine_waiting_process_gets_a_task_dequeued() {
    let execution = Execution::new(None, true);
    assert_eq!(execution.poll(QUIET, reading(0), State::Yielded), Step::DequeueTask);
    assert_eq!(execution.poll(QUIET, reading(0), State::Unstarted), Step::DequeueTask);
    assert_eq!(execution.dequeued(true), Step::DispatchTask);
    assert_eq!(execution.dequeued(false), stop(StoppedExecutingReason::YieldedNoTask));
}

#[test]
fn engine_stopped_process_is_not_run() {
    let execution = Execution::new(Some(10000), false);
    for state in [State::StoppedRunning, State::StoppedYielded, State::StoppedFaulted] {
        assert_eq!(
            execution.poll(QUIET, reading(10000), state),
            stop(StoppedExecutingReason::StoppedOrFault)
        );
    }
}

#[test]
fn engine_pending_work_preempts_a_strict_execution() {
    let strict = Execution::new(Some(10000), true);
    let interrupt = Pending { interrupts: true, deferred_calls: false };
    let deferred = Pending { interrupts: false, deferred_calls: true };
    for pending in [interrupt, deferred] {
        assert_eq!(
            strict.poll(pending, reading(10000), State::Running),
            stop(StoppedExecutingReason::KernelPreemption)
        );
        // Preemption comes before expiry.
        assert_eq!(
            strict.poll(pending, reading(0), State::Yielded),
            stop(StoppedExecutingReason::KernelPreemption)
        );
    }
    let lenient = Execution::new(Some(10000), false);
    assert_eq!(
        lenient.poll(interrupt, reading(10000), State::Running),
        Step::SwitchTo { arm_timer: true }
    );
}

#[test]
fn engine_timeslice_below_minimum_expires_without_switch() {
    let expired = Step::Stop {
        reason: StoppedExecutingReason::TimesliceExpired,
        notify_expired: true,
    };
    for timeslice in [0, 1, 499] {
        let execution = Execution::new(Some(timeslice), true);
        for state in [State::Running, State::Yielded, State::StoppedRunning] {
            assert_eq!(execution.poll(QUIET, reading(timeslice), state), expired);
        }
        assert_eq!(
            execution.finish(StoppedExecutingReason::TimesliceExpired, reading(timeslice)),
            (StoppedExecutingReason::TimesliceExpired, Some(0))
        );
    }
    let at_minimum = Execution::new(Some(500), true);
    assert_eq!(
        at_minimum.poll(QUIET, reading(500), State::Running),
        Step::SwitchTo { arm_timer: true }
    );
}

#[test]
fn engine_timer_overflow_is_expiry() {
    let execution = Execution::new(Some(10000), false);
    let overflowed = TimerStatus { remaining_us: 4_294_960_000, overflowed: true };
    assert_eq!(
        execution.poll(QUIET, overflowed, State::Running),
        Step::Stop { reason: StoppedExecutingReason::TimesliceExpired, notify_expired: true }
    );
    assert_eq!(
        execution.finish(StoppedExecutingReason::TimesliceExpired, overflowed),
        (StoppedExecutingReason::TimesliceExpired, Some(10000))
    );
}

#[test]
fn engine_nothing_expires_without_a_timeslice() {
    let execution = Execution::new(None, false);
    let overflowed = TimerStatus { remaining_us: 0, overflowed: true };
    let step = execution.poll(QUIET, overflowed, State::Running);
    assert_eq!(step, Step::SwitchTo { arm_timer: false });
    assert_eq!(
        execution.finish(StoppedExecutingReason::YieldedNoTask, overflowed),
        (StoppedExecutingReason::YieldedNoTask, None)
    );
}

#[test]
fn engine_classifies_the_return_from_a_process() {
    let execution = Execution::new(Some(10000), true);
    assert_eq!(execution.switched(Some(ReturnReason::Yield)), Step::Poll);
    assert_eq!(execution.switched(Some(ReturnReason::Syscall)), Step::HandleSyscall);
    assert_eq!(
        execution.switched(Some(ReturnReason::TimesliceExpired)),
        stop(StoppedExecutingReason::TimesliceExpired)
    );
    assert_eq!(
        execution.switched(Some(ReturnReason::Interrupted)),
        stop(StoppedExecutingReason::KernelPreemption)
    );
    assert_eq!(execution.switched(None), Step::Poll);
}

#[test]
fn engine_time_used_is_programmed_less_remaining() {
    let execution = Execution::new(Some(10000), true);
    let reason = StoppedExecutingReason::KernelPreemption;
    assert_eq!(execution.finish(reason, reading(7000)), (reason, Some(3000)));
    assert_eq!(execution.finish(reason, reading(10000)), (reason, Some(0)));
    assert_eq!(execution.finish(reason, reading(0)), (reason, Some(10000)));
    assert_eq!(execution.finish(reason, reading(1)), (reason, Some(9999)));
}

#[test]
fn engine_time_used_never_exceeds_the_timeslice() {
    let reason = StoppedExecutingReason::TimesliceExpired;
    for timeslice in [0u32, 499, 500, 10000, u32::MAX] {
        let execution = Execution::new(Some(timeslice), false);
        for remaining in [0u32, 1, 499, 500, 10000, 10001, u32::MAX] {
            for overflowed in [false, true] {
                let timer = TimerStatus { remaining_us: remaining, overflowed };
                let (_, used) = execution.finish(reason, timer);
                assert!(used.unwrap() <= timeslice);
            }
        }
    }
    let execution = Execution::new(Some(10000), false);
    assert_eq!(execution.finish(reason, reading(10001)), (reason, Some(10000)));
}
