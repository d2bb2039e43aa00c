//! The lifecycle protocol of one double-checked invocation: initial check,
//! prepare, locked second check and task, then commit or rollback.
//!
//! The protocol is a state machine. A runner asks for the next action,
//! performs it (calling the predicate, prepare callback, locked phase or
//! finalizer, with or without panic capture), and hands the result back. The
//! machine decides what happens next and builds the single terminal outcome.
//! The token produced by prepare stays with the runner.

use vstd::prelude::*;

use crate::execution::{LockedExecution, RollbackExecution, RollbackReason};
use crate::outcome::{ExecutionOutcome, FinalizationOutcome, LifecycleOutcome, PreparationOutcome};
use crate::panic::{PanicInfo, PanicPhase};

verus! {

/// The next piece of work a lifecycle runner must perform.
#[derive(Debug, Clone, Copy, PartialEq, Eq, Structural)]
pub enum LifecycleAction {
    /// Evaluate the predicate without holding the lock.
    CheckInitialCondition,
    /// Run the prepare callback to obtain the invocation token.
    Prepare,
    /// Acquire the lock, evaluate the predicate again and, when it holds, run
    /// the task; release the lock before reporting.
    ExecuteLocked,
    /// Commit the token (or drop it when no commit is configured).
    Commit,
    /// Roll the token back (or drop it when no rollback is configured).
    Rollback,
    /// Attempt rollback while discarding any secondary failure, then resume
    /// the original locked-phase panic.
    RollbackThenResume,
    /// The invocation is over; take the outcome.
    Finish,
}

/// Where one lifecycle invocation stands.
#[derive(Debug)]
pub enum LifecycleState<R, E, C> {
    /// Nothing has run yet.
    AwaitingInitialCheck,
    /// The lock-free check returned `true`.
    AwaitingPrepare,
    /// Prepare produced a token.
    AwaitingLockedExecution,
    /// The task returned a value; the token must follow the commit path.
    AwaitingCommit { value: R },
    /// Locked execution did not succeed; the token must follow rollback.
    AwaitingRollback { execution: RollbackExecution<E> },
    /// Without panic capture, the locked phase panicked; rollback is attempted
    /// and the panic is then resumed.
    AwaitingPanicResume { panic: PanicInfo },
    /// A terminal outcome has been reached.
    Finished { outcome: LifecycleOutcome<R, E, C> },
}

impl<R, E, C> LifecycleState<R, E, C> {
    /// The action that this state asks for.
    pub open spec fn spec_action(&self) -> LifecycleAction {
        match *self {
            LifecycleState::AwaitingInitialCheck => LifecycleAction::CheckInitialCondition,
            LifecycleState::AwaitingPrepare => LifecycleAction::Prepare,
            LifecycleState::AwaitingLockedExecution => LifecycleAction::ExecuteLocked,
            LifecycleState::AwaitingCommit { .. } => LifecycleAction::Commit,
            LifecycleState::AwaitingRollback { .. } => LifecycleAction::Rollback,
            LifecycleState::AwaitingPanicResume { .. } => LifecycleAction::RollbackThenResume,
            LifecycleState::Finished { .. } => LifecycleAction::Finish,
        }
    }

    /// How far the invocation has progressed; every transition increases it.
    pub open spec fn stage(&self) -> nat {
        match *self {
            LifecycleState::AwaitingInitialCheck => 0,
            LifecycleState::AwaitingPrepare => 1,
            LifecycleState::AwaitingLockedExecution => 2,
            LifecycleState::AwaitingCommit { .. } => 3,
            LifecycleState::AwaitingRollback { .. } => 3,
            LifecycleState::AwaitingPanicResume { .. } => 3,
            LifecycleState::Finished { .. } => 4,
        }
    }
}

/// One lifecycle invocation driven through the protocol.
#[derive(Debug)]
pub struct LifecycleRun<R, E, C> {
    /// Whether panics of every phase are captured as outcomes.
    captures_panics: bool,
    /// The current protocol state.
    state: LifecycleState<R, E, C>,
}

/// The state after the lock-free check reported `checked`.
pub open spec fn after_initial_check<R, E, C>(checked: Result<bool, PanicInfo>) -> LifecycleState<R, E, C> {
    match checked {
        Ok(true) => LifecycleState::AwaitingPrepare,
        Ok(false) => LifecycleState::Finished { outcome: LifecycleOutcome::InitialConditionNotMet },
        Err(panic) => LifecycleState::Finished {
            outcome: LifecycleOutcome::InitialConditionCheckPanicked(panic),
        },
    }
}

/// The state after prepare reported `prepared` (the token itself stays with
/// the runner; `Ok(Ok(()))` means a token was produced).
pub open spec fn after_prepare<R, E, C>(prepared: Result<Result<(), C>, PanicInfo>) -> LifecycleState<R, E, C> {
    match prepared {
        Ok(Ok(())) => LifecycleState::AwaitingLockedExecution,
        Ok(Err(error)) => LifecycleState::Finished { outcome: LifecycleOutcome::PrepareFailed(error) },
        Err(panic) => LifecycleState::Finished { outcome: LifecycleOutcome::PreparePanicked(panic) },
    }
}

/// The state after the locked phase reported `locked`.
pub open spec fn after_locked_execution<R, E, C>(
    captures_panics: bool,
    locked: Result<LockedExecution<R, E>, PanicInfo>,
) -> LifecycleState<R, E, C> {
    match locked {
        Ok(LockedExecution::ConditionNotMet) => LifecycleState::AwaitingRollback {
            execution: RollbackExecution::ConditionNotMet,
        },
        Ok(LockedExecution::Task(Ok(value))) => LifecycleState::AwaitingCommit { value },
        Ok(LockedExecution::Task(Err(error))) => LifecycleState::AwaitingRollback {
            execution: RollbackExecution::TaskFailed(error),
        },
        Err(panic) => if captures_panics {
            LifecycleState::AwaitingRollback { execution: RollbackExecution::Panicked(panic) }
        } else {
            LifecycleState::AwaitingPanicResume { panic }
        },
    }
}

/// The state after commit or rollback reported `finalized`.
pub open spec fn after_finalization<R, E, C>(
    state: LifecycleState<R, E, C>,
    finalized: FinalizationOutcome<C>,
) -> LifecycleState<R, E, C> {
    match state {
        LifecycleState::AwaitingCommit { value } => LifecycleState::Finished {
            outcome: LifecycleOutcome::TaskSucceeded { value, commit: finalized },
        },
        LifecycleState::AwaitingRollback { execution } => LifecycleState::Finished {
            outcome: execution.spec_into_outcome(finalized),
        },
        _ => state,
    }
}

impl<R, E, C> LifecycleRun<R, E, C> {
    /// Whether this invocation captures panics.
    pub closed spec fn spec_captures_panics(&self) -> bool {
        self.captures_panics
    }

    /// The current protocol state.
    pub closed spec fn spec_state(&self) -> LifecycleState<R, E, C> {
        self.state
    }

    /// Starts a new invocation.
    pub fn new(captures_panics: bool) -> (r: Self)
        ensures
            r.spec_captures_panics() == captures_panics,
            r.spec_state() is AwaitingInitialCheck,
    {
        LifecycleRun { captures_panics, state: LifecycleState::AwaitingInitialCheck }
    }

    /// Returns whether this invocation captures panics.
    pub fn captures_panics(&self) -> (r: bool)
        ensures
            r == self.spec_captures_panics(),
    {
        self.captures_panics
    }

    /// Returns the next action the runner must perform.
    pub fn next_action(&self) -> (r: LifecycleAction)
        ensures
            r == self.spec_state().spec_action(),
    {
        match &self.state {
            LifecycleState::AwaitingInitialCheck => LifecycleAction::CheckInitialCondition,
            LifecycleState::AwaitingPrepare => LifecycleAction::Prepare,
            LifecycleState::AwaitingLockedExecution => LifecycleAction::ExecuteLocked,
            LifecycleState::AwaitingCommit { .. } => LifecycleAction::Commit,
            LifecycleState::AwaitingRollback { .. } => LifecycleAction::Rollback,
            LifecycleState::AwaitingPanicResume { .. } => LifecycleAction::RollbackThenResume,
            LifecycleState::Finished { .. } => LifecycleAction::Finish,
        }
    }

    /// Records the result of the lock-free condition check: `true` continues
    /// with prepare, `false` ends without preparing, and a captured panic ends
    /// with that panic.
    pub fn on_initial_check(self, checked: Result<bool, PanicInfo>) -> (r: Self)
        requires
            self.spec_state() is AwaitingInitialCheck,
            checked matches Err(panic) ==> panic.spec_phase() == PanicPhase::InitialConditionCheck,
        ensures
            r.spec_captures_panics() == self.spec_captures_panics(),
            r.spec_state() == after_initial_check::<R, E, C>(checked),
    {
        let state = match checked {
            Ok(true) => LifecycleState::AwaitingPrepare,
            Ok(false) => LifecycleState::Finished { outcome: LifecycleOutcome::InitialConditionNotMet },
            Err(panic) => LifecycleState::Finished {
                outcome: LifecycleOutcome::InitialConditionCheckPanicked(panic),
            },
        };
        LifecycleRun { captures_panics: self.captures_panics, state }
    }

    /// Records the result of prepare: a produced token continues with the
    /// locked phase; a prepare error or panic ends without a token.
    pub fn on_prepare(self, prepared: Result<Result<(), C>, PanicInfo>) -> (r: Self)
        requires
            self.spec_state() is AwaitingPrepare,
            prepared matches Err(panic) ==> panic.spec_phase() == PanicPhase::Prepare,
        ensures
            r.spec_captures_panics() == self.spec_captures_panics(),
            r.spec_state() == after_prepare::<R, E, C>(prepared),
    {
        let state = match prepared {
            Ok(Ok(())) => LifecycleState::AwaitingLockedExecution,
            Ok(Err(error)) => LifecycleState::Finished { outcome: LifecycleOutcome::PrepareFailed(error) },
            Err(panic) => LifecycleState::Finished { outcome: LifecycleOutcome::PreparePanicked(panic) },
        };
        LifecycleRun { captures_panics: self.captures_panics, state }
    }

    /// Records the result of the locked phase: a task value continues with
    /// commit; a failed second check, a task error or a captured panic
    /// continue with rollback. Without panic capture a locked-phase panic
    /// continues with rollback-then-resume instead.
    pub fn on_locked_execution(self, locked: Result<LockedExecution<R, E>, PanicInfo>) -> (r: Self)
        requires
            self.spec_state() is AwaitingLockedExecution,
            locked matches Err(panic) ==> panic.spec_phase().spec_is_locked_phase(),
        ensures
            r.spec_captures_panics() == self.spec_captures_panics(),
            r.spec_state() == after_locked_execution::<R, E, C>(self.spec_captures_panics(), locked),
    {
        let state = match locked {
            Ok(LockedExecution::ConditionNotMet) => LifecycleState::AwaitingRollback {
                execution: RollbackExecution::ConditionNotMet,
            },
            Ok(LockedExecution::Task(Ok(value))) => LifecycleState::AwaitingCommit { value },
            Ok(LockedExecution::Task(Err(error))) => LifecycleState::AwaitingRollback {
                execution: RollbackExecution::TaskFailed(error),
            },
            Err(panic) => if self.captures_panics {
                LifecycleState::AwaitingRollback { execution: RollbackExecution::Panicked(panic) }
            } else {
                LifecycleState::AwaitingPanicResume { panic }
            },
        };
        LifecycleRun { captures_panics: self.captures_panics, state }
    }

    /// Returns why rollback is required: the failed second check, the task
    /// error or the locked-phase panic, borrowed from the state.
    pub fn rollback_reason(&self) -> (r: RollbackReason<'_, E>)
        requires
            self.spec_state() is AwaitingRollback || self.spec_state() is AwaitingPanicResume,
        ensures
            match self.spec_state() {
                LifecycleState::AwaitingRollback { execution } => match execution {
                    RollbackExecution::ConditionNotMet => r is ConditionNotMet,
                    RollbackExecution::TaskFailed(error) => r matches RollbackReason::TaskFailed(e) && *e == error,
                    RollbackExecution::Panicked(panic) => r matches RollbackReason::Panicked(p) && *p == panic,
                },
                LifecycleState::AwaitingPanicResume { panic } => r matches RollbackReason::Panicked(p) && *p == panic,
                _ => false,
            },
    {
        match &self.state {
            LifecycleState::AwaitingRollback { execution } => execution.cause(),
            LifecycleState::AwaitingPanicResume { panic } => RollbackReason::Panicked(panic),
            _ => vstd::pervasive::unreached(),
        }
    }

    /// Records the outcome of commit or rollback and builds the terminal
    /// outcome, which keeps the task value, task error or panic unchanged
    /// next to the finalization outcome.
    pub fn on_finalized(self, finalized: FinalizationOutcome<C>) -> (r: Self)
        requires
            self.spec_state() is AwaitingCommit || self.spec_state() is AwaitingRollback,
            finalized matches FinalizationOutcome::Panicked(panic) ==> panic.spec_phase() == (
            if self.spec_state() is AwaitingCommit {
                PanicPhase::Commit
            } else {
                PanicPhase::Rollback
            }),
        ensures
            r.spec_captures_panics() == self.spec_captures_panics(),
            r.spec_state() == after_finalization(self.spec_state(), finalized),
    {
        let captures_panics = self.captures_panics;
        let state = match self.state {
            LifecycleState::AwaitingCommit { value } => LifecycleState::Finished {
                outcome: LifecycleOutcome::TaskSucceeded { value, commit: finalized },
            },
            LifecycleState::AwaitingRollback { execution } => LifecycleState::Finished {
                outcome: execution.into_outcome(finalized),
            },
            other => other,
        };
        LifecycleRun { captures_panics, state }
    }

    /// Takes the terminal outcome.
    pub fn into_outcome(self) -> (r: LifecycleOutcome<R, E, C>)
        requires
            self.spec_state() is Finished,
        ensures
            self.spec_state() == (LifecycleState::Finished::<R, E, C> { outcome: r }),
    {
        match self.state {
            LifecycleState::Finished { outcome } => outcome,
            _ => vstd::pervasive::unreached(),
        }
    }

    /// Takes the locked-phase panic that must be resumed after rollback.
    pub fn into_resumed_panic(self) -> (r: PanicInfo)
        requires
            self.spec_state() is AwaitingPanicResume,
        ensures
            self.spec_state() == (LifecycleState::AwaitingPanicResume::<R, E, C> { panic: r }),
    {
        match self.state {
            LifecycleState::AwaitingPanicResume { panic } => panic,
            _ => vstd::pervasive::unreached(),
        }
    }
}


/// The state an invocation reaches when the lock-free check reports
/// `initial`, prepare reports `prepared`, the locked phase reports `locked`
/// and the finalizer reports `finalized`; a report is used only when the
/// protocol asks for it.
pub open spec fn driven_state<R, E, C>(
    captures_panics: bool,
    initial: Result<bool, PanicInfo>,
    prepared: Result<Result<(), C>, PanicInfo>,
    locked: Result<LockedExecution<R, E>, PanicInfo>,
    finalized: FinalizationOutcome<C>,
) -> LifecycleState<R, E, C> {
    let s1 = after_initial_check::<R, E, C>(initial);
    if !(s1 is AwaitingPrepare) {
        s1
    } else {
        let s2 = after_prepare::<R, E, C>(prepared);
        if !(s2 is AwaitingLockedExecution) {
            s2
        } else {
            let s3 = after_locked_execution::<R, E, C>(captures_panics, locked);
            if s3 is AwaitingPanicResume {
                s3
            } else {
                after_finalization(s3, finalized)
            }
        }
    }
}

/// Every report moves the invocation strictly forward, so each action is
/// performed at most once and an invocation needs at most four reports.
pub proof fn law_every_report_advances<R, E, C>(
    captures_panics: bool,
    initial: Result<bool, PanicInfo>,
    prepared: Result<Result<(), C>, PanicInfo>,
    locked: Result<LockedExecution<R, E>, PanicInfo>,
    state: LifecycleState<R, E, C>,
    finalized: FinalizationOutcome<C>,
)
    ensures
        after_initial_check::<R, E, C>(initial).stage() > LifecycleState::<R, E, C>::AwaitingInitialCheck.stage(),
        after_prepare::<R, E, C>(prepared).stage() > LifecycleState::<R, E, C>::AwaitingPrepare.stage(),
        after_locked_execution::<R, E, C>(captures_panics, locked).stage()
            > LifecycleState::<R, E, C>::AwaitingLockedExecution.stage(),
        (state is AwaitingCommit || state is AwaitingRollback) ==> after_finalization(state, finalized).stage()
            > state.stage(),
{
}

/// Every invocation ends in exactly one terminal state: a finished outcome,
/// or (without panic capture) a locked-phase panic to be resumed.
pub proof fn law_invocation_terminates<R, E, C>(
    captures_panics: bool,
    initial: Result<bool, PanicInfo>,
    prepared: Result<Result<(), C>, PanicInfo>,
    locked: Result<LockedExecution<R, E>, PanicInfo>,
    finalized: FinalizationOutcome<C>,
)
    ensures
        ({
            let s = driven_state(captures_panics, initial, prepared, locked, finalized);
            s is Finished || s is AwaitingPanicResume
        }),
{
}

/// Prepare runs only after the lock-free check returned `true`; the
/// invocation ends with `InitialConditionNotMet` exactly when that check
/// returned `false`, and with `InitialConditionCheckPanicked` exactly when it
/// panicked.
pub proof fn law_prepare_only_after_initial_check<R, E, C>(
    captures_panics: bool,
    initial: Result<bool, PanicInfo>,
    prepared: Result<Result<(), C>, PanicInfo>,
    locked: Result<LockedExecution<R, E>, PanicInfo>,
    finalized: FinalizationOutcome<C>,
)
    ensures
        ({
            let s = driven_state(captures_panics, initial, prepared, locked, finalized);
            &&& (s == LifecycleState::<R, E, C>::Finished { outcome: LifecycleOutcome::InitialConditionNotMet })
                <==> initial == Ok::<bool, PanicInfo>(false)
            &&& (forall|p: PanicInfo|
                s == (LifecycleState::<R, E, C>::Finished {
                    outcome: LifecycleOutcome::InitialConditionCheckPanicked(p),
                }) <==> initial == Err::<bool, PanicInfo>(p))
            &&& !(s is Finished && (s->outcome is InitialConditionNotMet
                || s->outcome is InitialConditionCheckPanicked)) ==> initial == Ok::<bool, PanicInfo>(true)
        }),
{
}

/// A commit outcome occurs exactly when the check passed, prepare produced a
/// token and the task returned a value; it carries that value and the
/// finalizer's outcome.
pub proof fn law_commit_only_after_task_success<R, E, C>(
    captures_panics: bool,
    initial: Result<bool, PanicInfo>,
    prepared: Result<Result<(), C>, PanicInfo>,
    locked: Result<LockedExecution<R, E>, PanicInfo>,
    finalized: FinalizationOutcome<C>,
    value: R,
    commit: FinalizationOutcome<C>,
)
    ensures
        driven_state(captures_panics, initial, prepared, locked, finalized) == (LifecycleState::<R, E, C>::Finished {
            outcome: LifecycleOutcome::TaskSucceeded { value, commit },
        }) <==> {
            &&& initial == Ok::<bool, PanicInfo>(true)
            &&& prepared == Ok::<Result<(), C>, PanicInfo>(Ok(()))
            &&& locked == Ok::<LockedExecution<R, E>, PanicInfo>(LockedExecution::Task(Ok(value)))
            &&& commit == finalized
        },
{
    match initial {
        Ok(b) => {
            if b {
                match prepared {
                    Ok(p) => match p {
                        Ok(u) => {
                            assert(u == ());
                            assert(prepared == Ok::<Result<(), C>, PanicInfo>(Ok(())));
                        },
                        Err(_) => {},
                    },
                    Err(_) => {},
                }
            }
        },
        Err(_) => {},
    }
}

/// A rollback outcome occurs only after prepare produced a token and locked
/// execution did not succeed. It keeps the original task error or panic
/// unchanged next to the rollback's own outcome, so neither overwrites the
/// other.
pub proof fn law_rollback_only_after_unsuccessful_execution<R, E, C>(
    captures_panics: bool,
    initial: Result<bool, PanicInfo>,
    prepared: Result<Result<(), C>, PanicInfo>,
    locked: Result<LockedExecution<R, E>, PanicInfo>,
    finalized: FinalizationOutcome<C>,
)
    requires
        initial == Ok::<bool, PanicInfo>(true),
        prepared == Ok::<Result<(), C>, PanicInfo>(Ok(())),
    ensures
        ({
            let s = driven_state(captures_panics, initial, prepared, locked, finalized);
            &&& locked == Ok::<LockedExecution<R, E>, PanicInfo>(LockedExecution::ConditionNotMet) ==> s == (
            LifecycleState::<R, E, C>::Finished {
                outcome: LifecycleOutcome::SecondConditionNotMet { rollback: finalized },
            })
            &&& forall|error: E|
                locked == Ok::<LockedExecution<R, E>, PanicInfo>(LockedExecution::Task(Err(error))) ==> s == (
                LifecycleState::<R, E, C>::Finished {
                    outcome: LifecycleOutcome::TaskFailed { error, rollback: finalized },
                })
            &&& forall|panic: PanicInfo|
                locked == Err::<LockedExecution<R, E>, PanicInfo>(panic) && captures_panics ==> s == (
                LifecycleState::<R, E, C>::Finished {
                    outcome: LifecycleOutcome::ExecutionPanicked { panic, rollback: finalized },
                })
        }),
        ({
            let s = driven_state(captures_panics, initial, prepared, locked, finalized);
            (s is Finished && (s->outcome is SecondConditionNotMet || s->outcome is TaskFailed
                || s->outcome is ExecutionPanicked)) ==> !(locked matches Ok(LockedExecution::Task(Ok(_))))
        }),
{
}

/// A prepare failure or panic ends the invocation before the lock is taken
/// and before any commit or rollback.
pub proof fn law_prepare_failure_ends_without_finalization<R, E, C>(
    captures_panics: bool,
    prepared: Result<Result<(), C>, PanicInfo>,
    locked: Result<LockedExecution<R, E>, PanicInfo>,
    finalized: FinalizationOutcome<C>,
)
    requires
        !(prepared == Ok::<Result<(), C>, PanicInfo>(Ok(()))),
    ensures
        ({
            let s = driven_state(captures_panics, Ok::<bool, PanicInfo>(true), prepared, locked, finalized);
            &&& s is Finished
            &&& (forall|error: C| prepared == Ok::<Result<(), C>, PanicInfo>(Err(error)) ==> s->outcome
                == LifecycleOutcome::<R, E, C>::PrepareFailed(error))
            &&& (forall|panic: PanicInfo| prepared == Err::<Result<(), C>, PanicInfo>(panic) ==> s->outcome
                == LifecycleOutcome::<R, E, C>::PreparePanicked(panic))
        }),
{
    match prepared {
        Ok(p) => match p {
            Ok(u) => {
                assert(u == ());
                assert(p == Ok::<(), C>(()));
            },
            Err(_) => {},
        },
        Err(_) => {},
    }
}

/// Without panic capture, a locked-phase panic after prepare never becomes an
/// outcome: rollback is attempted and the original panic is resumed.
pub proof fn law_uncaptured_locked_panic_is_resumed<R, E, C>(
    panic: PanicInfo,
    finalized: FinalizationOutcome<C>,
)
    ensures
        driven_state::<R, E, C>(
            false,
            Ok(true),
            Ok(Ok(())),
            Err(panic),
            finalized,
        ) == (LifecycleState::<R, E, C>::AwaitingPanicResume { panic }),
        (LifecycleState::<R, E, C>::AwaitingPanicResume { panic }).spec_action()
            == LifecycleAction::RollbackThenResume,
{
}

/// A commit callback's error is kept: after the task returned `value` and
/// commit returned `Err(error)`, the invocation ends with the task's value on
/// the execution axis and `CommitFailed(error)` on the preparation axis.
pub proof fn law_commit_error_is_kept<R, E, C>(captures_panics: bool, value: R, error: C)
    ensures
        ({
            let s = driven_state::<R, E, C>(
                captures_panics,
                Ok(true),
                Ok(Ok(())),
                Ok(LockedExecution::Task(Ok(value))),
                FinalizationOutcome::Failed(error),
            );
            &&& s is Finished
            &&& s->outcome.spec_execution() == Some(ExecutionOutcome::<R, E>::Success(value))
            &&& s->outcome.spec_preparation() == PreparationOutcome::CommitFailed(error)
        }),
{
}

/// A rollback callback's error is kept: whenever the invocation needed
/// rollback (a failed second check, a task error, or a captured locked-phase
/// panic) and rollback returned `Err(error)`, the preparation axis is
/// `RollbackFailed(error)` and the task error, if any, stays on the execution
/// axis.
pub proof fn law_rollback_error_is_kept<R, E, C>(
    captures_panics: bool,
    locked: Result<LockedExecution<R, E>, PanicInfo>,
    error: C,
)
    requires
        !(locked matches Ok(LockedExecution::Task(Ok(_)))),
        locked is Err ==> captures_panics,
    ensures
        ({
            let s = driven_state::<R, E, C>(
                captures_panics,
                Ok(true),
                Ok(Ok(())),
                locked,
                FinalizationOutcome::Failed(error),
            );
            &&& s is Finished
            &&& s->outcome.spec_preparation() == PreparationOutcome::RollbackFailed(error)
            &&& forall|task_error: E| locked == Ok::<LockedExecution<R, E>, PanicInfo>(
                LockedExecution::Task(Err(task_error)),
            ) ==> s->outcome.spec_execution() == Some(ExecutionOutcome::<R, E>::TaskFailed(task_error))
        }),
{
}

} // verus!
