//! The protocol of one basic double-checked run: the lock-free check, the
//! lock, the second check while the lock is held, then the task.
//!
//! A runner asks for the next action, performs it (evaluating the predicate,
//! taking the lock, running the task) and reports the result back; the
//! protocol decides what follows and builds the result. A runner holds the
//! lock from the report of a successful acquisition until the protocol has
//! finished.

use vstd::prelude::*;

use crate::dcl::LockFailure;
use crate::outcome::ExecutionOutcome;

verus! {

/// The next piece of work a double-checked runner must perform.
#[derive(Debug, Clone, Copy, PartialEq, Eq, Structural)]
pub enum GateAction {
    /// Evaluate the predicate without holding the lock.
    CheckInitialCondition,
    /// Take the lock.
    AcquireLock,
    /// Evaluate the predicate again while holding the lock.
    CheckLockedCondition,
    /// Run the task while holding the lock.
    RunTask,
    /// The run is over; release the lock if it is held and take the result.
    Finish,
}

/// Where one double-checked run stands.
#[derive(Debug)]
pub enum GateState<R, E> {
    /// Nothing has run yet.
    AwaitingInitialCheck,
    /// The lock-free check returned `true`; the lock is to be taken.
    AwaitingLock,
    /// The lock is held; the predicate is to be evaluated again.
    AwaitingSecondCheck,
    /// The lock is held and both checks returned `true`; the task is to run.
    AwaitingTask,
    /// The run is over with this result: an outcome, or the reason the lock
    /// could not be taken.
    Finished { result: Result<ExecutionOutcome<R, E>, LockFailure> },
}

impl<R, E> GateState<R, E> {
    /// The action that this state asks for.
    pub open spec fn spec_action(&self) -> GateAction {
        match *self {
            GateState::AwaitingInitialCheck => GateAction::CheckInitialCondition,
            GateState::AwaitingLock => GateAction::AcquireLock,
            GateState::AwaitingSecondCheck => GateAction::CheckLockedCondition,
            GateState::AwaitingTask => GateAction::RunTask,
            GateState::Finished { .. } => GateAction::Finish,
        }
    }

    /// How far the run has progressed; every transition increases it.
    pub open spec fn stage(&self) -> nat {
        match *self {
            GateState::AwaitingInitialCheck => 0,
            GateState::AwaitingLock => 1,
            GateState::AwaitingSecondCheck => 2,
            GateState::AwaitingTask => 3,
            GateState::Finished { .. } => 4,
        }
    }

    /// Whether a runner in this state holds the lock.
    pub open spec fn holds_lock(&self) -> bool {
        self is AwaitingSecondCheck || self is AwaitingTask
    }
}

/// The state after the lock-free check returned `passed`.
pub open spec fn gate_after_initial_check<R, E>(passed: bool) -> GateState<R, E> {
    if passed {
        GateState::AwaitingLock
    } else {
        GateState::Finished { result: Ok(ExecutionOutcome::ConditionNotMet) }
    }
}

/// The state after an attempt to take the lock reported `acquired`.
pub open spec fn gate_after_lock<R, E>(acquired: Result<(), LockFailure>) -> GateState<R, E> {
    match acquired {
        Ok(()) => GateState::AwaitingSecondCheck,
        Err(failure) => GateState::Finished { result: Err(failure) },
    }
}

/// The state after the check under the lock returned `passed`.
pub open spec fn gate_after_second_check<R, E>(passed: bool) -> GateState<R, E> {
    if passed {
        GateState::AwaitingTask
    } else {
        GateState::Finished { result: Ok(ExecutionOutcome::ConditionNotMet) }
    }
}

/// The state after the task returned `returned`.
pub open spec fn gate_after_task<R, E>(returned: Result<R, E>) -> GateState<R, E> {
    match returned {
        Ok(value) => GateState::Finished { result: Ok(ExecutionOutcome::Success(value)) },
        Err(error) => GateState::Finished { result: Ok(ExecutionOutcome::TaskFailed(error)) },
    }
}

/// The state a run reaches when the lock-free check reports `first`, the
/// lock reports `acquired`, the check under the lock reports `second` and
/// the task returns `returned`; a report is used only when the protocol asks
/// for it.
pub open spec fn gate_driven<R, E>(
    first: bool,
    acquired: Result<(), LockFailure>,
    second: bool,
    returned: Result<R, E>,
) -> GateState<R, E> {
    let s1 = gate_after_initial_check::<R, E>(first);
    if !(s1 is AwaitingLock) {
        s1
    } else {
        let s2 = gate_after_lock::<R, E>(acquired);
        if !(s2 is AwaitingSecondCheck) {
            s2
        } else {
            let s3 = gate_after_second_check::<R, E>(second);
            if !(s3 is AwaitingTask) {
                s3
            } else {
                gate_after_task(returned)
            }
        }
    }
}

/// One double-checked run driven through the protocol.
#[derive(Debug)]
pub struct GateRun<R, E> {
    /// The current protocol state.
    state: GateState<R, E>,
}

impl<R, E> GateRun<R, E> {
    /// The current protocol state.
    pub closed spec fn spec_state(&self) -> GateState<R, E> {
        self.state
    }

    /// Starts a new run.
    pub fn new() -> (r: Self)
        ensures
            r.spec_state() is AwaitingInitialCheck,
    {
        GateRun { state: GateState::AwaitingInitialCheck }
    }

    /// Returns the next action the runner must perform.
    pub fn next_action(&self) -> (r: GateAction)
        ensures
            r == self.spec_state().spec_action(),
    {
        match &self.state {
            GateState::AwaitingInitialCheck => GateAction::CheckInitialCondition,
            GateState::AwaitingLock => GateAction::AcquireLock,
            GateState::AwaitingSecondCheck => GateAction::CheckLockedCondition,
            GateState::AwaitingTask => GateAction::RunTask,
            GateState::Finished { .. } => GateAction::Finish,
        }
    }

    /// Records the lock-free check: `true` asks for the lock, `false` ends
    /// the run with `ConditionNotMet` before the lock is touched.
    pub fn on_initial_check(self, passed: bool) -> (r: Self)
        requires
            self.spec_state() is AwaitingInitialCheck,
        ensures
            r.spec_state() == gate_after_initial_check::<R, E>(passed),
    {
        if passed {
            GateRun { state: GateState::AwaitingLock }
        } else {
            GateRun { state: GateState::Finished { result: Ok(ExecutionOutcome::ConditionNotMet) } }
        }
    }

    /// Records the attempt to take the lock: a held lock asks for the second
    /// check, a busy or poisoned lock ends the run with that failure.
    pub fn on_lock(self, acquired: Result<(), LockFailure>) -> (r: Self)
        requires
            self.spec_state() is AwaitingLock,
        ensures
            r.spec_state() == gate_after_lock::<R, E>(acquired),
    {
        match acquired {
            Ok(()) => GateRun { state: GateState::AwaitingSecondCheck },
            Err(failure) => GateRun { state: GateState::Finished { result: Err(failure) } },
        }
    }

    /// Records the check under the lock: `true` asks for the task, `false`
    /// ends the run with `ConditionNotMet` without running it.
    pub fn on_second_check(self, passed: bool) -> (r: Self)
        requires
            self.spec_state() is AwaitingSecondCheck,
        ensures
            r.spec_state() == gate_after_second_check::<R, E>(passed),
    {
        if passed {
            GateRun { state: GateState::AwaitingTask }
        } else {
            GateRun { state: GateState::Finished { result: Ok(ExecutionOutcome::ConditionNotMet) } }
        }
    }

    /// Records what the task returned, keeping its value or error unchanged.
    pub fn on_task(self, returned: Result<R, E>) -> (r: Self)
        requires
            self.spec_state() is AwaitingTask,
        ensures
            r.spec_state() == gate_after_task(returned),
    {
        match returned {
            Ok(value) => GateRun { state: GateState::Finished { result: Ok(ExecutionOutcome::Success(value)) } },
            Err(error) => GateRun { state: GateState::Finished { result: Ok(ExecutionOutcome::TaskFailed(error)) } },
        }
    }

    /// Takes the result of a finished run.
    pub fn into_result(self) -> (r: Result<ExecutionOutcome<R, E>, LockFailure>)
        requires
            self.spec_state() is Finished,
        ensures
            self.spec_state() == (GateState::<R, E>::Finished { result: r }),
    {
        match self.state {
            GateState::Finished { result } => result,
            _ => vstd::pervasive::unreached(),
        }
    }
}

/// Every report moves a run strictly forward, so each action is performed at
/// most once and a run needs at most four reports.
pub proof fn law_gate_every_report_advances<R, E>(
    first: bool,
    acquired: Result<(), LockFailure>,
    second: bool,
    returned: Result<R, E>,
)
    ensures
        gate_after_initial_check::<R, E>(first).stage() > GateState::<R, E>::AwaitingInitialCheck.stage(),
        gate_after_lock::<R, E>(acquired).stage() > GateState::<R, E>::AwaitingLock.stage(),
        gate_after_second_check::<R, E>(second).stage() > GateState::<R, E>::AwaitingSecondCheck.stage(),
        gate_after_task::<R, E>(returned).stage() > GateState::<R, E>::AwaitingTask.stage(),
        gate_driven(first, acquired, second, returned) is Finished,
{
}

/// The lock is asked for exactly when the lock-free check returned `true`.
/// When it returned `false` the run ends with `ConditionNotMet` and neither
/// the lock, nor the second check, nor the task is consulted.
pub proof fn law_gate_lock_only_after_initial_check<R, E>(
    acquired: Result<(), LockFailure>,
    second: bool,
    returned: Result<R, E>,
)
    ensures
        gate_after_initial_check::<R, E>(true).spec_action() == GateAction::AcquireLock,
        gate_after_initial_check::<R, E>(false).spec_action() == GateAction::Finish,
        gate_driven(false, acquired, second, returned) == (GateState::<R, E>::Finished {
            result: Ok(ExecutionOutcome::ConditionNotMet),
        }),
{
}

/// The second check is asked for only after the lock was taken, and the
/// task only after that second check returned `true`; both happen while
/// the lock is held.
pub proof fn law_gate_second_check_and_task_under_lock<R, E>(passed: bool)
    ensures
        gate_after_lock::<R, E>(Ok(())).spec_action() == GateAction::CheckLockedCondition,
        gate_after_lock::<R, E>(Ok(())).holds_lock(),
        gate_after_second_check::<R, E>(true).spec_action() == GateAction::RunTask,
        gate_after_second_check::<R, E>(true).holds_lock(),
        !passed ==> gate_after_second_check::<R, E>(passed) == (GateState::<R, E>::Finished {
            result: Ok(ExecutionOutcome::ConditionNotMet),
        }),
{
}

/// A task value or error is the result exactly when the lock-free check
/// passed, the lock was taken and the check under the lock passed; it is
/// kept unchanged. A lock that could not be taken ends the run with that
/// failure and runs nothing more.
pub proof fn law_gate_task_only_after_both_checks<R, E>(
    first: bool,
    acquired: Result<(), LockFailure>,
    second: bool,
    returned: Result<R, E>,
)
    ensures
        (gate_driven(first, acquired, second, returned) matches GateState::Finished { result: Ok(outcome) }
            && !(outcome is ConditionNotMet)) <==> (first && acquired is Ok && second),
        first && acquired is Ok && second ==> gate_driven(first, acquired, second, returned) == gate_after_task(
            returned,
        ),
        forall|failure: LockFailure|
            first && acquired == Err::<(), LockFailure>(failure) ==> gate_driven(first, acquired, second, returned)
                == (GateState::<R, E>::Finished { result: Err(failure) }),
{
    if first && acquired is Ok && second {
        match returned {
            Ok(_) => {},
            Err(_) => {},
        }
    }
}

} // verus!
