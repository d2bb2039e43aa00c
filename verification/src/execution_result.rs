//! The result reported by context-returning executions and the context
//! returned after execution.

use vstd::prelude::*;

use crate::callback_error::CallbackError;
use crate::executor_error::ExecutorError;
use vstd::std_specs::convert::IntoSpec;

verus! {

/// Result of executing a task: success, an unmet condition, or a failure.
#[derive(Debug)]
pub enum ExecutionResult<T, E> {
    /// Execution succeeded with a value.
    Success(T),
    /// The double-checked condition was not met.
    ConditionNotMet,
    /// Execution failed with an error.
    Failed(ExecutorError<E>),
}

impl<T, E> ExecutionResult<T, E> {
    /// The standard result that this result converts to.
    pub open spec fn spec_into_result(self) -> Result<Option<T>, ExecutorError<E>> {
        match self {
            ExecutionResult::Success(v) => Ok(Some(v)),
            ExecutionResult::ConditionNotMet => Ok(None),
            ExecutionResult::Failed(e) => Err(e),
        }
    }

    /// Builds `Success(value)`.
    pub fn success(value: T) -> (r: Self)
        ensures
            r == ExecutionResult::<T, E>::Success(value),
    {
        ExecutionResult::Success(value)
    }

    /// Builds `ConditionNotMet`.
    pub fn unmet() -> (r: Self)
        ensures
            r == ExecutionResult::<T, E>::ConditionNotMet,
    {
        ExecutionResult::ConditionNotMet
    }

    /// Builds a failure wrapping the task error.
    pub fn task_failed(err: E) -> (r: Self)
        ensures
            r == ExecutionResult::<T, E>::Failed(ExecutorError::TaskFailed(err)),
    {
        ExecutionResult::Failed(ExecutorError::TaskFailed(err))
    }

    /// Builds a prepare failure whose message is the display text of `msg`.
    pub fn prepare_failed<M: core::fmt::Display>(msg: M) -> (r: Self)
        ensures
            r matches ExecutionResult::Failed(ExecutorError::PrepareFailed(c)) && c.spec_callback_type() is None
                && vstd::string::to_string_from_display_ensures::<M>(&msg, c.spec_message()),
    {
        ExecutionResult::Failed(ExecutorError::PrepareFailed(CallbackError::from_display(msg)))
    }

    /// Builds a prepare-commit failure whose message is the display text of
    /// `msg`.
    pub fn prepare_commit_failed<M: core::fmt::Display>(msg: M) -> (r: Self)
        ensures
            r matches ExecutionResult::Failed(ExecutorError::PrepareCommitFailed(c)) && c.spec_callback_type() is None
                && vstd::string::to_string_from_display_ensures::<M>(&msg, c.spec_message()),
    {
        ExecutionResult::Failed(ExecutorError::PrepareCommitFailed(CallbackError::from_display(msg)))
    }

    /// Builds a prepare failure that carries the callback type label, which
    /// [`ExecutorError::callback_type`] later reports.
    pub fn prepare_failed_with_type<M: core::fmt::Display>(callback_type: &'static str, msg: M) -> (r: Self)
        ensures
            r matches ExecutionResult::Failed(ExecutorError::PrepareFailed(c)) && c.spec_callback_type() == Some(
                callback_type,
            ) && vstd::string::to_string_from_display_ensures::<M>(&msg, c.spec_message()),
    {
        ExecutionResult::Failed(ExecutorError::PrepareFailed(CallbackError::with_callback_type(callback_type, msg)))
    }

    /// Builds a prepare-rollback failure from the original failure that
    /// triggered rollback and the rollback's own failure, both converted to
    /// strings.
    pub fn prepare_rollback_failed<O: Into<String>, B: Into<String>>(original: O, rollback: B) -> (r: Self)
        ensures
            r matches ExecutionResult::Failed(ExecutorError::PrepareRollbackFailed { original: o, rollback: b })
                && o.spec_callback_type() is None && b.spec_callback_type() is None
                && (O::obeys_into_spec() ==> o.spec_message() == original.into_spec())
                && (B::obeys_into_spec() ==> b.spec_message() == rollback.into_spec()),
    {
        let o = CallbackError::from_message(original.into());
        let b = CallbackError::from_message(rollback.into());
        ExecutionResult::Failed(ExecutorError::PrepareRollbackFailed { original: o, rollback: b })
    }

    /// The result reported for an execution outcome: success and an unmet
    /// condition carry over, and a task error becomes
    /// `Failed(ExecutorError::TaskFailed(error))`.
    pub open spec fn spec_from_outcome(outcome: crate::outcome::ExecutionOutcome<T, E>) -> Self {
        match outcome {
            crate::outcome::ExecutionOutcome::Success(v) => ExecutionResult::Success(v),
            crate::outcome::ExecutionOutcome::ConditionNotMet => ExecutionResult::ConditionNotMet,
            crate::outcome::ExecutionOutcome::TaskFailed(e) => ExecutionResult::Failed(ExecutorError::TaskFailed(e)),
        }
    }

    /// The execution outcome that this result reports, if it reports one:
    /// every result except a failure other than a task failure.
    pub open spec fn spec_outcome(self) -> Option<crate::outcome::ExecutionOutcome<T, E>> {
        match self {
            ExecutionResult::Success(v) => Some(crate::outcome::ExecutionOutcome::Success(v)),
            ExecutionResult::ConditionNotMet => Some(crate::outcome::ExecutionOutcome::ConditionNotMet),
            ExecutionResult::Failed(ExecutorError::TaskFailed(e)) => Some(crate::outcome::ExecutionOutcome::TaskFailed(e)),
            ExecutionResult::Failed(_) => None,
        }
    }

    /// Converts an execution outcome to the result reported by
    /// context-returning executions.
    pub fn from_outcome(outcome: crate::outcome::ExecutionOutcome<T, E>) -> (r: Self)
        ensures
            r == Self::spec_from_outcome(outcome),
            r.spec_outcome() == Some(outcome),
    {
        match outcome {
            crate::outcome::ExecutionOutcome::Success(v) => ExecutionResult::Success(v),
            crate::outcome::ExecutionOutcome::ConditionNotMet => ExecutionResult::ConditionNotMet,
            crate::outcome::ExecutionOutcome::TaskFailed(e) => ExecutionResult::Failed(ExecutorError::TaskFailed(e)),
        }
    }

    /// Wraps an executor error as a failure.
    pub fn from_executor_error(err: ExecutorError<E>) -> (r: Self)
        ensures
            r == ExecutionResult::<T, E>::Failed(err),
    {
        ExecutionResult::Failed(err)
    }

    /// Checks whether execution succeeded.
    pub fn is_success(&self) -> (r: bool)
        ensures
            r <==> self is Success,
    {
        matches!(self, ExecutionResult::Success(_))
    }

    /// Checks whether the condition was not met.
    pub fn is_unmet(&self) -> (r: bool)
        ensures
            r <==> self is ConditionNotMet,
    {
        matches!(self, ExecutionResult::ConditionNotMet)
    }

    /// Checks whether execution failed.
    pub fn is_failed(&self) -> (r: bool)
        ensures
            r <==> self is Failed,
    {
        matches!(self, ExecutionResult::Failed(_))
    }

    /// Converts to a standard result: `Ok(Some(value))` on success,
    /// `Ok(None)` when the condition was not met, `Err(error)` on failure.
    pub fn into_result(self) -> (r: Result<Option<T>, ExecutorError<E>>)
        ensures
            r == self.spec_into_result(),
            r is Err <==> self is Failed,
            forall|error: ExecutorError<E>| r == Err::<Option<T>, ExecutorError<E>>(error) ==> self
                == ExecutionResult::<T, E>::Failed(error),
            r == Ok::<Option<T>, ExecutorError<E>>(None) <==> self is ConditionNotMet,
    {
        match self {
            ExecutionResult::Success(v) => Ok(Some(v)),
            ExecutionResult::ConditionNotMet => Ok(None),
            ExecutionResult::Failed(e) => Err(e),
        }
    }

    /// Returns the success value; calling it on any other variant is excluded
    /// by the precondition.
    pub fn unwrap(self) -> (r: T)
        requires
            self is Success,
        ensures
            self == ExecutionResult::<T, E>::Success(r),
    {
        match self {
            ExecutionResult::Success(v) => v,
            _ => vstd::pervasive::unreached(),
        }
    }
}

} // verus!

verus! {

/// Reporting an execution outcome as a result loses nothing: the reported
/// result names the same outcome, and converting either to a standard result
/// gives the same success values, with a task error wrapped as
/// `ExecutorError::TaskFailed`.
/// Converting a result to a standard result loses nothing: every failure,
/// whatever its executor error, is `Err` with that same error; only an unmet
/// condition is `Ok(None)`; and a success is `Ok(Some(value))` with its
/// value.
pub proof fn law_into_result_keeps_every_failure<T, E>(result: ExecutionResult<T, E>)
    ensures
        forall|error: ExecutorError<E>| result == ExecutionResult::<T, E>::Failed(error) <==> result.spec_into_result()
            == Err::<Option<T>, ExecutorError<E>>(error),
        result is ConditionNotMet <==> result.spec_into_result() == Ok::<Option<T>, ExecutorError<E>>(None),
        forall|value: T| result == ExecutionResult::<T, E>::Success(value) <==> result.spec_into_result()
            == Ok::<Option<T>, ExecutorError<E>>(Some(value)),
{
}

pub proof fn law_result_agrees_with_outcome<T, E>(outcome: crate::outcome::ExecutionOutcome<T, E>)
    ensures
        ExecutionResult::<T, E>::spec_from_outcome(outcome).spec_outcome() == Some(outcome),
        ExecutionResult::<T, E>::spec_from_outcome(outcome).spec_into_result() == match outcome.spec_into_result() {
            Ok(value) => Ok::<Option<T>, ExecutorError<E>>(value),
            Err(error) => Err::<Option<T>, ExecutorError<E>>(ExecutorError::TaskFailed(error)),
        },
{
}

} // verus!

verus! {

/// The state after a context-returning execution: all work of the execution
/// has been done when a context is returned.
pub struct ExecutionContext<T, E> {
    /// Result produced by the double-checked execution.
    result: ExecutionResult<T, E>,
}

impl<T, E> ExecutionContext<T, E> {
    /// The stored result.
    pub closed spec fn spec_result(&self) -> ExecutionResult<T, E> {
        self.result
    }

    /// Creates a context around `result`.
    pub fn new(result: ExecutionResult<T, E>) -> (r: Self)
        ensures
            r.spec_result() == result,
    {
        ExecutionContext { result }
    }

    /// Consumes the context and returns the result; no further side effects
    /// are triggered.
    pub fn get_result(self) -> (r: ExecutionResult<T, E>)
        ensures
            r == self.spec_result(),
    {
        self.result
    }

    /// Returns the result without consuming the context.
    pub fn peek_result(&self) -> (r: &ExecutionResult<T, E>)
        ensures
            *r == self.spec_result(),
    {
        &self.result
    }

    /// Checks whether execution was successful.
    pub fn is_success(&self) -> (r: bool)
        ensures
            r <==> self.spec_result() is Success,
    {
        self.result.is_success()
    }
}

impl<E> ExecutionContext<(), E> {
    /// Completes an execution without return value, collapsing an unmet
    /// condition and a failure to `false`.
    pub fn finish(self) -> (r: bool)
        ensures
            r <==> self.spec_result() is Success,
    {
        let result = self.get_result();
        result.is_success()
    }

    /// Completes an execution while preserving failure details: `Ok(true)`
    /// on success, `Ok(false)` when the condition was not met, and the
    /// stored executor error otherwise.
    pub fn try_finish(self) -> (r: Result<bool, ExecutorError<E>>)
        ensures
            match self.spec_result() {
                ExecutionResult::Success(_) => r == Ok::<bool, ExecutorError<E>>(true),
                ExecutionResult::ConditionNotMet => r == Ok::<bool, ExecutorError<E>>(false),
                ExecutionResult::Failed(error) => r == Err::<bool, ExecutorError<E>>(error),
            },
    {
        match self.get_result() {
            ExecutionResult::Success(()) => Ok(true),
            ExecutionResult::ConditionNotMet => Ok(false),
            ExecutionResult::Failed(error) => Err(error),
        }
    }
}

} // verus!
