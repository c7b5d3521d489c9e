use cargo_mutants_core::cargo::CargoResult;
use cargo_mutants_core::supervisor::{
    after_signal, after_termination, classify_exit, poll, ExitStatus, PollDecision, RunError,
    SignalResult, TerminateAction,
};

#[test]
fn deadline_passed_times_out() {
    assert_eq!(poll(11, Some(10), false), PollDecision::TimedOut);
    assert_eq!(poll(11, Some(10), true), PollDecision::TimedOut);
    assert_eq!(poll(10, Some(10), false), PollDecision::Wait);
    assert_eq!(poll(0, Some(0), false), PollDecision::Wait);
    assert_eq!(
        after_termination(PollDecision::TimedOut, Ok(())),
        Ok(CargoResult::Timeout)
    );
}

#[test]
fn no_deadline_never_times_out() {
    assert_eq!(poll(u128::MAX, None, false), PollDecision::Wait);
}

#[test]
fn exit_code_decides_success() {
    assert_eq!(classify_exit(ExitStatus::Exited(0), false), Ok(CargoResult::Success));
    assert_eq!(classify_exit(ExitStatus::Exited(1), false), Ok(CargoResult::Failure));
    assert_eq!(classify_exit(ExitStatus::Exited(101), false), Ok(CargoResult::Failure));
    assert_eq!(classify_exit(ExitStatus::Signaled(9), false), Ok(CargoResult::Failure));
    assert_eq!(classify_exit(ExitStatus::Undetermined, false), Ok(CargoResult::Failure));
    assert!(ExitStatus::Exited(0).success());
    assert!(!ExitStatus::Other(0).success());
}

#[test]
fn interruption_cancels_the_run() {
    assert_eq!(poll(5, Some(10), true), PollDecision::Interrupted);
    assert_eq!(poll(5, None, true), PollDecision::Interrupted);
    assert_eq!(
        after_termination(PollDecision::Interrupted, Ok(())),
        Err(RunError::Interrupted)
    );
    assert_eq!(classify_exit(ExitStatus::Exited(0), true), Err(RunError::Interrupted));
}

#[test]
fn already_gone_is_not_an_error() {
    assert_eq!(after_signal(SignalResult::NoSuchProcess), TerminateAction::Reap);
    assert_eq!(after_signal(SignalResult::Delivered), TerminateAction::Reap);
}

#[test]
fn other_signal_failures_are_reported() {
    assert_eq!(
        after_signal(SignalResult::Failed("EPERM: Operation not permitted".to_owned())),
        TerminateAction::Fail("failed to terminate child: EPERM: Operation not permitted".to_owned())
    );
    let failed = RunError::TerminationFailed("failed to terminate child: EPERM".to_owned());
    assert_eq!(
        after_termination(PollDecision::TimedOut, Err(failed.clone())),
        Err(failed)
    );
}
