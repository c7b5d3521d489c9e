//! The decisions of the supervision loop that runs one build-tool
//! invocation: when to stop waiting, how to classify an exit, and how to
//! interpret the outcome of terminating the process tree.
//!
//! The loop itself (spawning, sleeping, signalling) is driven by the caller,
//! which hands each observation to these functions and performs the action
//! they return.

use vstd::prelude::*;

use crate::cargo::CargoResult;

verus! {

/// How a child process ended, as observed by a wait.
#[derive(Debug, Clone, Copy, PartialEq, Eq, Structural)]
pub enum ExitStatus {
    /// The process exited with this code.
    Exited(u32),
    /// The process was killed by this signal.
    Signaled(u8),
    /// Another platform-specific status.
    Other(i32),
    /// The status could not be determined.
    Undetermined,
}

impl ExitStatus {
    /// True exactly for an exit with code zero.
    pub fn success(&self) -> (r: bool)
        ensures
            r == (*self == ExitStatus::Exited(0)),
    {
        match self {
            ExitStatus::Exited(code) => *code == 0,
            _ => false,
        }
    }
}

/// What the loop does after checking the clock and the interruption flag.
#[derive(Debug, Clone, Copy, PartialEq, Eq, Structural)]
pub enum PollDecision {
    /// The deadline has passed: terminate the process tree and report a timeout.
    TimedOut,
    /// Cancellation was requested: terminate the process tree and stop the run.
    Interrupted,
    /// Wait for the child for one poll interval.
    Wait,
}

/// Errors of a supervised run, besides failing to launch the child.
#[derive(Debug, Clone, PartialEq, Eq)]
pub enum RunError {
    /// The user asked to stop everything.
    Interrupted,
    /// Signalling the process tree failed for a reason other than it being gone.
    TerminationFailed(String),
}

/// What came of signalling the child's process group (or the child itself).
#[derive(Debug, Clone, PartialEq, Eq)]
pub enum SignalResult {
    /// The termination signal was delivered.
    Delivered,
    /// No such process: the group had already exited.
    NoSuchProcess,
    /// Any other failure, described.
    Failed(String),
}

/// The next step after signalling the process tree.
#[derive(Debug, Clone, PartialEq, Eq)]
pub enum TerminateAction {
    /// Wait for the direct child to reap it.
    Reap,
    /// Report this message as a termination error.
    Fail(String),
}

/// Whether `elapsed` nanoseconds exceed the deadline, if there is one.
pub open spec fn deadline_passed(elapsed: u128, timeout: Option<u128>) -> bool {
    match timeout {
        Some(t) => elapsed > t,
        None => false,
    }
}

/// The decision of one poll: timeout first, then interruption, then waiting.
pub open spec fn poll_spec(elapsed: u128, timeout: Option<u128>, interrupted: bool) -> PollDecision {
    if deadline_passed(elapsed, timeout) {
        PollDecision::TimedOut
    } else if interrupted {
        PollDecision::Interrupted
    } else {
        PollDecision::Wait
    }
}

/// The outcome of a run whose child exited by itself.
pub open spec fn exit_outcome(status: ExitStatus, interrupted: bool) -> Result<CargoResult, RunError> {
    if interrupted {
        Err(RunError::Interrupted)
    } else if status == ExitStatus::Exited(0) {
        Ok(CargoResult::Success)
    } else {
        Ok(CargoResult::Failure)
    }
}

/// The prefix of the message that reports a failed termination.
pub open spec fn terminate_failure_prefix() -> Seq<char> {
    "failed to terminate child: "@
}

/// Whether `act` is the step that follows signalling the process tree with
/// result `sig`: reap unless signalling failed for another reason than the
/// process being gone, in which case fail with a message that names the cause.
pub open spec fn signal_action_spec(sig: SignalResult, act: TerminateAction) -> bool {
    match sig {
        SignalResult::Failed(e) => match act {
            TerminateAction::Fail(m) => m@ == terminate_failure_prefix() + e@,
            TerminateAction::Reap => false,
        },
        _ => act == TerminateAction::Reap,
    }
}

/// The outcome of a run that ended by terminating the process tree.
pub open spec fn terminated_outcome(decision: PollDecision, terminated: Result<(), RunError>) -> Result<
    CargoResult,
    RunError,
> {
    match terminated {
        Err(e) => Err(e),
        Ok(()) => match decision {
            PollDecision::Interrupted => Err(RunError::Interrupted),
            _ => Ok(CargoResult::Timeout),
        },
    }
}

/// Decide what one poll of the supervision loop does, given the nanoseconds
/// elapsed since the spawn, the deadline if any, and the interruption flag.
/// A passed deadline takes priority over an interruption.
pub fn poll(elapsed: u128, timeout: Option<u128>, interrupted: bool) -> (r: PollDecision)
    ensures
        r == poll_spec(elapsed, timeout, interrupted),
{
    let passed = match timeout {
        Some(t) => elapsed > t,
        None => false,
    };
    if passed {
        PollDecision::TimedOut
    } else if interrupted {
        PollDecision::Interrupted
    } else {
        PollDecision::Wait
    }
}

/// Classify a child that exited by itself, re-checking the interruption
/// flag first so that an interruption racing with a fast exit is honoured.
pub fn classify_exit(status: ExitStatus, interrupted: bool) -> (r: Result<CargoResult, RunError>)
    ensures
        r == exit_outcome(status, interrupted),
{
    if interrupted {
        Err(RunError::Interrupted)
    } else if status.success() {
        Ok(CargoResult::Success)
    } else {
        Ok(CargoResult::Failure)
    }
}

/// Decide the step after signalling the process tree. A process that is
/// already gone is no error: it is reaped like one that was signalled.
pub fn after_signal(sig: SignalResult) -> (r: TerminateAction)
    ensures
        signal_action_spec(sig, r),
{
    match sig {
        SignalResult::Failed(e) => {
            let mut message = "failed to terminate child: ".to_string();
            message.append(e.as_str());
            proof {
                reveal_strlit("failed to terminate child: ");
            }
            TerminateAction::Fail(message)
        },
        _ => TerminateAction::Reap,
    }
}

/// The outcome of a run that ended by terminating the process tree after
/// `decision`, given how the termination went: a timeout becomes
/// `CargoResult::Timeout`, an interruption the cancellation error, and a
/// failed termination its own error.
pub fn after_termination(decision: PollDecision, terminated: Result<(), RunError>) -> (r: Result<
    CargoResult,
    RunError,
>)
    requires
        decision != PollDecision::Wait,
    ensures
        r == terminated_outcome(decision, terminated),
{
    match terminated {
        Err(e) => Err(e),
        Ok(()) => match decision {
            PollDecision::Interrupted => Err(RunError::Interrupted),
            _ => Ok(CargoResult::Timeout),
        },
    }
}

/// A child that outlives its deadline is timed out: the poll declares a
/// timeout whatever the interruption flag says, the process tree is then
/// signalled and reaped (also when it is already gone), and once that is
/// done the run reports `Timeout`.
pub proof fn lemma_deadline_means_timeout(elapsed: u128, timeout: u128, interrupted: bool, sig: SignalResult)
    requires
        elapsed > timeout,
    ensures
        poll_spec(elapsed, Some(timeout), interrupted) == PollDecision::TimedOut,
        !(sig is Failed) ==> signal_action_spec(sig, TerminateAction::Reap),
        terminated_outcome(PollDecision::TimedOut, Ok(())) == Ok::<CargoResult, RunError>(
            CargoResult::Timeout,
        ),
{
}

/// An exit that was neither timed out nor interrupted is `Success` exactly
/// when its code is zero and `Failure` otherwise, never `Timeout`.
pub proof fn lemma_exit_outcomes(status: ExitStatus)
    ensures
        exit_outcome(status, false) is Ok,
        exit_outcome(status, false) == Ok::<CargoResult, RunError>(CargoResult::Success) <==> status
            == ExitStatus::Exited(0),
        exit_outcome(status, false) == Ok::<CargoResult, RunError>(CargoResult::Failure) <==> status
            != ExitStatus::Exited(0),
        exit_outcome(status, false) != Ok::<CargoResult, RunError>(CargoResult::Timeout),
{
}

/// An interruption raised before the deadline passes stops the run with the
/// cancellation error and no outcome: the poll asks for termination, a
/// completed termination yields the cancellation error, a failed one its own
/// error, and an exit observed after the flag was raised is also cancelled.
pub proof fn lemma_interruption_cancels(
    elapsed: u128,
    timeout: Option<u128>,
    terminated: Result<(), RunError>,
    status: ExitStatus,
)
    requires
        !deadline_passed(elapsed, timeout),
    ensures
        poll_spec(elapsed, timeout, true) == PollDecision::Interrupted,
        terminated_outcome(PollDecision::Interrupted, terminated) is Err,
        terminated is Ok ==> terminated_outcome(PollDecision::Interrupted, terminated) == Err::<
            CargoResult,
            RunError,
        >(RunError::Interrupted),
        exit_outcome(status, true) == Err::<CargoResult, RunError>(RunError::Interrupted),
{
}

/// Terminating a process tree that is already gone is no error: the child
/// is reaped as after a delivered signal, and the run then ends as it would
/// have had the signal been delivered, never with a termination error.
pub proof fn lemma_termination_idempotent(decision: PollDecision)
    requires
        decision != PollDecision::Wait,
    ensures
        signal_action_spec(SignalResult::NoSuchProcess, TerminateAction::Reap),
        signal_action_spec(SignalResult::Delivered, TerminateAction::Reap),
        !(terminated_outcome(decision, Ok(())) matches Err(RunError::TerminationFailed(_))),
{
}

} // verus!
