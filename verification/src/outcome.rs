//! Structured outcomes of double-checked execution.

use vstd::prelude::*;

use crate::panic::PanicInfo;

verus! {

/// Describes whether and how the guarded task was executed.
#[derive(Debug)]
#[must_use]
pub enum ExecutionOutcome<R, E> {
    /// The task ran while holding the executor lock and returned `R`.
    Success(R),
    /// A lock-free or lock-protected condition check returned `false`.
    ConditionNotMet,
    /// The task ran and returned its original error value.
    TaskFailed(E),
}

impl<R, E> ExecutionOutcome<R, E> {
    /// The standard result that an outcome converts to.
    pub open spec fn spec_into_result(self) -> Result<Option<R>, E> {
        match self {
            ExecutionOutcome::Success(value) => Ok(Some(value)),
            ExecutionOutcome::ConditionNotMet => Ok(None),
            ExecutionOutcome::TaskFailed(error) => Err(error),
        }
    }

    /// Converts the outcome to a result whose success value is optional:
    /// `Success(value)` becomes `Ok(Some(value))`, `ConditionNotMet` becomes
    /// `Ok(None)`, and `TaskFailed(error)` becomes `Err(error)`.
    pub fn into_result(self) -> (r: Result<Option<R>, E>)
        ensures
            r == self.spec_into_result(),
    {
        match self {
            ExecutionOutcome::Success(value) => Ok(Some(value)),
            ExecutionOutcome::ConditionNotMet => Ok(None),
            ExecutionOutcome::TaskFailed(error) => Err(error),
        }
    }
}

/// Describes how a lifecycle token was finalized after locked execution.
///
/// The enclosing [`LifecycleOutcome`] variant identifies whether this outcome
/// belongs to commit or rollback.
#[derive(Debug)]
#[must_use]
pub enum FinalizationOutcome<C> {
    /// No callback was required and the token was dropped normally.
    NotRequired,
    /// The configured commit or rollback callback returned successfully.
    Succeeded,
    /// The configured callback returned its original lifecycle error.
    Failed(C),
    /// The callback, or the drop of a token that required no callback,
    /// panicked while panic capture was enabled.
    Panicked(PanicInfo),
}

impl<C> FinalizationOutcome<C> {
    /// The finalization outcome of a commit or rollback step.
    ///
    /// `configured` tells whether a callback was configured for the step;
    /// `completed` is what the step returned: the callback's own result when
    /// one was configured (the token is simply dropped otherwise), or the
    /// captured panic.
    pub open spec fn spec_from_step(configured: bool, completed: Result<Result<(), C>, PanicInfo>) -> Self {
        match completed {
            Err(panic) => FinalizationOutcome::Panicked(panic),
            Ok(Ok(())) => if configured {
                FinalizationOutcome::Succeeded
            } else {
                FinalizationOutcome::NotRequired
            },
            Ok(Err(error)) => if configured {
                FinalizationOutcome::Failed(error)
            } else {
                FinalizationOutcome::NotRequired
            },
        }
    }

    /// Classifies the result of one commit or rollback step.
    ///
    /// A configured callback that returns `Ok` succeeded and one that returns
    /// `Err(error)` failed with that original error; without a callback the
    /// token is only dropped, which requires no finalization. A panic captured
    /// during the step is kept as it is.
    pub fn from_step(configured: bool, completed: Result<Result<(), C>, PanicInfo>) -> (r: Self)
        ensures
            r == Self::spec_from_step(configured, completed),
            forall|panic: PanicInfo| completed == Err::<Result<(), C>, PanicInfo>(panic) ==> r
                == FinalizationOutcome::<C>::Panicked(panic),
            r is Succeeded <==> configured && (completed matches Ok(Ok(_))),
            r is NotRequired <==> !configured && completed is Ok,
            forall|error: C| r == FinalizationOutcome::<C>::Failed(error) <==> configured && completed
                == Ok::<Result<(), C>, PanicInfo>(Err(error)),
    {
        match completed {
            Err(panic) => FinalizationOutcome::Panicked(panic),
            Ok(Ok(())) => if configured {
                FinalizationOutcome::Succeeded
            } else {
                FinalizationOutcome::NotRequired
            },
            Ok(Err(error)) => if configured {
                FinalizationOutcome::Failed(error)
            } else {
                FinalizationOutcome::NotRequired
            },
        }
    }
}

/// Describes the single valid terminal state of a lifecycle invocation.
///
/// Commit outcomes occur only after task success. Rollback outcomes occur only
/// after preparation succeeded and locked execution did not complete
/// successfully.
#[derive(Debug)]
#[must_use]
pub enum LifecycleOutcome<R, E, C> {
    /// The lock-free condition check returned `false` before prepare started.
    InitialConditionNotMet,
    /// The lock-free condition check panicked before prepare started.
    InitialConditionCheckPanicked(PanicInfo),
    /// Prepare returned its original lifecycle error without producing a token.
    PrepareFailed(C),
    /// Prepare panicked without producing a usable token.
    PreparePanicked(PanicInfo),
    /// The task returned a value and the token followed the commit path.
    TaskSucceeded {
        /// Original value returned by the task.
        value: R,
        /// Outcome of commit or of dropping a token that required no commit.
        commit: FinalizationOutcome<C>,
    },
    /// The second condition check returned `false` after prepare completed.
    SecondConditionNotMet {
        /// Outcome of rollback or of dropping a token that required no
        /// rollback.
        rollback: FinalizationOutcome<C>,
    },
    /// The task returned its original error and the token followed rollback.
    TaskFailed {
        /// Original error returned by the task.
        error: E,
        /// Outcome of rollback or of dropping a token that required no
        /// rollback.
        rollback: FinalizationOutcome<C>,
    },
    /// Locked execution panicked after prepare and the token followed rollback.
    ExecutionPanicked {
        /// Original panic captured from lock acquisition, the second condition
        /// check, the task, or lock release.
        panic: PanicInfo,
        /// Outcome of rollback or of dropping a token that required no
        /// rollback.
        rollback: FinalizationOutcome<C>,
    },
}

/// Describes the lifecycle work performed around a guarded task.
#[derive(Debug)]
#[must_use]
pub enum PreparationOutcome<C> {
    /// The initial condition failed before prepare started.
    NotStarted,
    /// Prepare returned the original lifecycle error and produced no token.
    PrepareFailed(C),
    /// Prepare panicked and produced no usable token.
    PreparePanicked(PanicInfo),
    /// The successful path explicitly declared that no commit was required.
    CommitNotRequired,
    /// Commit consumed the token successfully.
    Committed,
    /// Commit consumed the token and returned the original lifecycle error.
    CommitFailed(C),
    /// Commit finalization panicked while consuming the token.
    CommitPanicked(PanicInfo),
    /// The unsuccessful path explicitly declared that no rollback was
    /// required.
    RollbackNotRequired,
    /// Rollback consumed the token successfully.
    RolledBack,
    /// Rollback consumed the token and returned the original lifecycle error.
    RollbackFailed(C),
    /// Rollback finalization panicked while consuming the token.
    RollbackPanicked(PanicInfo),
}

/// A borrowed view of the task error handed to a rollback callback.
///
/// The error is type-erased; its contents are never inspected by verified
/// code.
#[verifier::external_body]
#[derive(Debug)]
pub struct TaskErrorRef<'a>(pub &'a (dyn std::error::Error + Send + Sync + 'static));

/// Explains why a prepared invocation requires rollback.
///
/// Error and panic values are borrowed only for the duration of the rollback
/// callback so that the outcome can retain their original owned values.
#[derive(Debug)]
pub enum RollbackCause<'a> {
    /// The second condition check failed after prepare completed.
    ConditionNotMet,
    /// The guarded task returned an error.
    TaskFailed(
        /// Borrowed view of the original task error.
        TaskErrorRef<'a>,
    ),
    /// Lock acquisition, the second condition check, the task or lock release
    /// panicked.
    Panicked(
        /// Borrowed metadata for the original captured panic.
        &'a PanicInfo,
    ),
}

/// Retains both the guarded task outcome and its lifecycle finalization
/// outcome.
#[derive(Debug)]
#[must_use]
pub struct ExecutionReport<R, E, C> {
    /// Outcome of the condition checks and guarded task.
    execution: ExecutionOutcome<R, E>,
    /// Outcome of prepare and its selected finalizer.
    preparation: PreparationOutcome<C>,
}

impl<R, E, C> ExecutionReport<R, E, C> {
    /// The condition and task axis of the report.
    pub closed spec fn spec_execution(&self) -> ExecutionOutcome<R, E> {
        self.execution
    }

    /// The prepare and finalization axis of the report.
    pub closed spec fn spec_preparation(&self) -> PreparationOutcome<C> {
        self.preparation
    }

    /// Creates a report without collapsing either outcome axis.
    pub fn new(execution: ExecutionOutcome<R, E>, preparation: PreparationOutcome<C>) -> (r: Self)
        ensures
            r.spec_execution() == execution,
            r.spec_preparation() == preparation,
    {
        ExecutionReport { execution, preparation }
    }

    /// Returns the condition and task outcome.
    pub fn execution(&self) -> (r: &ExecutionOutcome<R, E>)
        ensures
            *r == self.spec_execution(),
    {
        &self.execution
    }

    /// Returns the prepare and finalization outcome.
    pub fn preparation(&self) -> (r: &PreparationOutcome<C>)
        ensures
            *r == self.spec_preparation(),
    {
        &self.preparation
    }

    /// Consumes the report and returns both outcome axes.
    pub fn into_parts(self) -> (r: (ExecutionOutcome<R, E>, PreparationOutcome<C>))
        ensures
            r.0 == self.spec_execution(),
            r.1 == self.spec_preparation(),
    {
        (self.execution, self.preparation)
    }
}

impl<C> FinalizationOutcome<C> {
    /// How this outcome reads on the preparation axis when it finalized the
    /// successful path: a commit error `c` is `CommitFailed(c)`.
    pub open spec fn spec_as_commit(self) -> PreparationOutcome<C> {
        match self {
            FinalizationOutcome::NotRequired => PreparationOutcome::CommitNotRequired,
            FinalizationOutcome::Succeeded => PreparationOutcome::Committed,
            FinalizationOutcome::Failed(error) => PreparationOutcome::CommitFailed(error),
            FinalizationOutcome::Panicked(panic) => PreparationOutcome::CommitPanicked(panic),
        }
    }

    /// How this outcome reads on the preparation axis when it finalized the
    /// unsuccessful path: a rollback error `c` is `RollbackFailed(c)`.
    pub open spec fn spec_as_rollback(self) -> PreparationOutcome<C> {
        match self {
            FinalizationOutcome::NotRequired => PreparationOutcome::RollbackNotRequired,
            FinalizationOutcome::Succeeded => PreparationOutcome::RolledBack,
            FinalizationOutcome::Failed(error) => PreparationOutcome::RollbackFailed(error),
            FinalizationOutcome::Panicked(panic) => PreparationOutcome::RollbackPanicked(panic),
        }
    }

    /// Converts a commit outcome to the preparation axis.
    pub fn into_commit_preparation(self) -> (r: PreparationOutcome<C>)
        ensures
            r == self.spec_as_commit(),
    {
        match self {
            FinalizationOutcome::NotRequired => PreparationOutcome::CommitNotRequired,
            FinalizationOutcome::Succeeded => PreparationOutcome::Committed,
            FinalizationOutcome::Failed(error) => PreparationOutcome::CommitFailed(error),
            FinalizationOutcome::Panicked(panic) => PreparationOutcome::CommitPanicked(panic),
        }
    }

    /// Converts a rollback outcome to the preparation axis.
    pub fn into_rollback_preparation(self) -> (r: PreparationOutcome<C>)
        ensures
            r == self.spec_as_rollback(),
    {
        match self {
            FinalizationOutcome::NotRequired => PreparationOutcome::RollbackNotRequired,
            FinalizationOutcome::Succeeded => PreparationOutcome::RolledBack,
            FinalizationOutcome::Failed(error) => PreparationOutcome::RollbackFailed(error),
            FinalizationOutcome::Panicked(panic) => PreparationOutcome::RollbackPanicked(panic),
        }
    }
}

impl<R, E, C> LifecycleOutcome<R, E, C> {
    /// The preparation axis of a terminal lifecycle outcome: prepare did not
    /// start, prepare failed or panicked, or the token followed commit or
    /// rollback with the given result.
    pub open spec fn spec_preparation(self) -> PreparationOutcome<C> {
        match self {
            LifecycleOutcome::InitialConditionNotMet => PreparationOutcome::NotStarted,
            LifecycleOutcome::InitialConditionCheckPanicked(_) => PreparationOutcome::NotStarted,
            LifecycleOutcome::PrepareFailed(error) => PreparationOutcome::PrepareFailed(error),
            LifecycleOutcome::PreparePanicked(panic) => PreparationOutcome::PreparePanicked(panic),
            LifecycleOutcome::TaskSucceeded { commit, .. } => commit.spec_as_commit(),
            LifecycleOutcome::SecondConditionNotMet { rollback } => rollback.spec_as_rollback(),
            LifecycleOutcome::TaskFailed { rollback, .. } => rollback.spec_as_rollback(),
            LifecycleOutcome::ExecutionPanicked { rollback, .. } => rollback.spec_as_rollback(),
        }
    }

    /// The condition and task axis of a terminal lifecycle outcome, when the
    /// checks completed and, if both passed, the task returned: `None` for a
    /// panicked check, a failed or panicked prepare, and a locked-phase panic.
    pub open spec fn spec_execution(self) -> Option<ExecutionOutcome<R, E>> {
        match self {
            LifecycleOutcome::InitialConditionNotMet => Some(ExecutionOutcome::ConditionNotMet),
            LifecycleOutcome::TaskSucceeded { value, .. } => Some(ExecutionOutcome::Success(value)),
            LifecycleOutcome::SecondConditionNotMet { .. } => Some(ExecutionOutcome::ConditionNotMet),
            LifecycleOutcome::TaskFailed { error, .. } => Some(ExecutionOutcome::TaskFailed(error)),
            _ => None,
        }
    }

    /// Returns the preparation axis of this outcome, dropping the task axis.
    pub fn into_preparation(self) -> (r: PreparationOutcome<C>)
        ensures
            r == self.spec_preparation(),
    {
        match self {
            LifecycleOutcome::InitialConditionNotMet => PreparationOutcome::NotStarted,
            LifecycleOutcome::InitialConditionCheckPanicked(_) => PreparationOutcome::NotStarted,
            LifecycleOutcome::PrepareFailed(error) => PreparationOutcome::PrepareFailed(error),
            LifecycleOutcome::PreparePanicked(panic) => PreparationOutcome::PreparePanicked(panic),
            LifecycleOutcome::TaskSucceeded { commit, .. } => commit.into_commit_preparation(),
            LifecycleOutcome::SecondConditionNotMet { rollback } => rollback.into_rollback_preparation(),
            LifecycleOutcome::TaskFailed { rollback, .. } => rollback.into_rollback_preparation(),
            LifecycleOutcome::ExecutionPanicked { rollback, .. } => rollback.into_rollback_preparation(),
        }
    }

    /// Splits this outcome into a report with both axes when it has a task
    /// axis (see [`LifecycleOutcome::spec_execution`]); otherwise returns the
    /// outcome unchanged as `Err`.
    pub fn into_report(self) -> (r: Result<ExecutionReport<R, E, C>, Self>)
        ensures
            match self.spec_execution() {
                Some(execution) => r matches Ok(report) && report.spec_execution() == execution
                    && report.spec_preparation() == self.spec_preparation(),
                None => r == Err::<ExecutionReport<R, E, C>, Self>(self),
            },
    {
        match self {
            LifecycleOutcome::InitialConditionNotMet => Ok(
                ExecutionReport::new(ExecutionOutcome::ConditionNotMet, PreparationOutcome::NotStarted),
            ),
            LifecycleOutcome::TaskSucceeded { value, commit } => Ok(
                ExecutionReport::new(ExecutionOutcome::Success(value), commit.into_commit_preparation()),
            ),
            LifecycleOutcome::SecondConditionNotMet { rollback } => Ok(
                ExecutionReport::new(ExecutionOutcome::ConditionNotMet, rollback.into_rollback_preparation()),
            ),
            LifecycleOutcome::TaskFailed { error, rollback } => Ok(
                ExecutionReport::new(ExecutionOutcome::TaskFailed(error), rollback.into_rollback_preparation()),
            ),
            other => Err(other),
        }
    }
}

/// A commit or rollback step is classified by what it did: a captured panic
/// is kept as `Panicked` with that same panic whether or not a callback was
/// configured; `Succeeded` means a configured callback returned `Ok(())`;
/// `Failed(error)` means a configured callback returned that error; and
/// `NotRequired` means no callback was configured and the step returned.
pub proof fn law_finalization_step_classification<C>(
    configured: bool,
    completed: Result<Result<(), C>, PanicInfo>,
)
    ensures
        forall|panic: PanicInfo| completed == Err::<Result<(), C>, PanicInfo>(panic) ==> FinalizationOutcome::<
            C,
        >::spec_from_step(configured, completed) == FinalizationOutcome::<C>::Panicked(panic),
        FinalizationOutcome::<C>::spec_from_step(configured, completed) is Panicked <==> completed is Err,
        FinalizationOutcome::<C>::spec_from_step(configured, completed) is Succeeded <==> configured
            && (completed matches Ok(Ok(_))),
        FinalizationOutcome::<C>::spec_from_step(configured, completed) is NotRequired <==> !configured
            && completed is Ok,
        forall|error: C| FinalizationOutcome::<C>::spec_from_step(configured, completed)
            == FinalizationOutcome::<C>::Failed(error) <==> configured && completed == Ok::<Result<(), C>, PanicInfo>(
            Err(error)),
{
}

/// The preparation axis keeps every lifecycle error and panic unchanged and
/// tells commit from rollback: a commit result is always one of the
/// `Commit*` variants (or `CommitNotRequired`), a rollback result one of the
/// `Roll*` variants, and an error or panic value is never replaced.
pub proof fn law_preparation_axis_keeps_values<C>(finalized: FinalizationOutcome<C>)
    ensures
        forall|error: C| finalized == FinalizationOutcome::<C>::Failed(error) <==> finalized.spec_as_commit()
            == PreparationOutcome::<C>::CommitFailed(error),
        forall|error: C| finalized == FinalizationOutcome::<C>::Failed(error) <==> finalized.spec_as_rollback()
            == PreparationOutcome::<C>::RollbackFailed(error),
        forall|panic: PanicInfo| finalized == FinalizationOutcome::<C>::Panicked(panic)
            <==> finalized.spec_as_commit() == PreparationOutcome::<C>::CommitPanicked(panic),
        forall|panic: PanicInfo| finalized == FinalizationOutcome::<C>::Panicked(panic)
            <==> finalized.spec_as_rollback() == PreparationOutcome::<C>::RollbackPanicked(panic),
        finalized is Succeeded <==> finalized.spec_as_commit() is Committed,
        finalized is Succeeded <==> finalized.spec_as_rollback() is RolledBack,
        finalized is NotRequired <==> finalized.spec_as_commit() is CommitNotRequired,
        finalized is NotRequired <==> finalized.spec_as_rollback() is RollbackNotRequired,
{
}

/// Converting an execution outcome to a standard result loses nothing: a
/// value is `Ok(Some(value))`, an unmet condition is `Ok(None)` and a task
/// error is `Err(error)`, and each of these results comes from that outcome
/// only.
pub proof fn law_outcome_into_result_is_faithful<R, E>(outcome: ExecutionOutcome<R, E>)
    ensures
        forall|value: R| outcome == ExecutionOutcome::<R, E>::Success(value) <==> outcome.spec_into_result()
            == Ok::<Option<R>, E>(Some(value)),
        outcome is ConditionNotMet <==> outcome.spec_into_result() == Ok::<Option<R>, E>(None),
        forall|error: E| outcome == ExecutionOutcome::<R, E>::TaskFailed(error) <==> outcome.spec_into_result()
            == Err::<Option<R>, E>(error),
{
}

} // verus!
