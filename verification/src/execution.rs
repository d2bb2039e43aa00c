//! Results of the locked phase and the unsuccessful states that require
//! rollback.

use vstd::prelude::*;

use crate::outcome::{ExecutionOutcome, FinalizationOutcome, LifecycleOutcome};
use crate::panic::PanicInfo;

verus! {

/// Distinguishes a failed second check from an executed task result.
#[derive(Debug)]
#[must_use]
pub enum LockedExecution<R, E> {
    /// The condition was no longer satisfied after the lock was acquired.
    ConditionNotMet,
    /// The task ran while the executor lock was held.
    Task(Result<R, E>),
}

impl<R, E> LockedExecution<R, E> {
    /// The public execution outcome of a completed locked phase.
    pub open spec fn spec_into_outcome(self) -> ExecutionOutcome<R, E> {
        match self {
            LockedExecution::ConditionNotMet => ExecutionOutcome::ConditionNotMet,
            LockedExecution::Task(Ok(value)) => ExecutionOutcome::Success(value),
            LockedExecution::Task(Err(error)) => ExecutionOutcome::TaskFailed(error),
        }
    }

    /// Converts a completed locked phase into its public execution outcome.
    pub fn into_outcome(self) -> (r: ExecutionOutcome<R, E>)
        ensures
            r == self.spec_into_outcome(),
    {
        match self {
            LockedExecution::ConditionNotMet => ExecutionOutcome::ConditionNotMet,
            LockedExecution::Task(Ok(value)) => ExecutionOutcome::Success(value),
            LockedExecution::Task(Err(error)) => ExecutionOutcome::TaskFailed(error),
        }
    }
}

/// Why a prepared invocation requires rollback, borrowing the task error in
/// its own type; runners erase the error type when they hand the cause to a
/// rollback callback.
#[derive(Debug)]
pub enum RollbackReason<'a, E> {
    /// The second condition check failed after prepare completed.
    ConditionNotMet,
    /// The guarded task returned this error.
    TaskFailed(&'a E),
    /// Lock acquisition, the second check, the task or lock release panicked.
    Panicked(&'a PanicInfo),
}

/// The locked-execution state that requires lifecycle rollback.
#[derive(Debug)]
pub enum RollbackExecution<E> {
    /// The second condition check returned `false`.
    ConditionNotMet,
    /// The task returned its original error.
    TaskFailed(E),
    /// Lock acquisition, the second check, the task or lock release panicked.
    Panicked(PanicInfo),
}

impl<E> RollbackExecution<E> {
    /// The terminal outcome of this unsuccessful state once rollback finished.
    pub open spec fn spec_into_outcome<R, C>(self, rollback: FinalizationOutcome<C>) -> LifecycleOutcome<R, E, C> {
        match self {
            RollbackExecution::ConditionNotMet => LifecycleOutcome::SecondConditionNotMet { rollback },
            RollbackExecution::TaskFailed(error) => LifecycleOutcome::TaskFailed { error, rollback },
            RollbackExecution::Panicked(panic) => LifecycleOutcome::ExecutionPanicked { panic, rollback },
        }
    }

    /// Creates the borrowed cause passed to the rollback callback.
    pub fn cause(&self) -> (r: RollbackReason<'_, E>)
        ensures
            match *self {
                RollbackExecution::ConditionNotMet => r is ConditionNotMet,
                RollbackExecution::TaskFailed(error) => r matches RollbackReason::TaskFailed(e) && *e == error,
                RollbackExecution::Panicked(panic) => r matches RollbackReason::Panicked(p) && *p == panic,
            },
    {
        match self {
            RollbackExecution::ConditionNotMet => RollbackReason::ConditionNotMet,
            RollbackExecution::TaskFailed(error) => RollbackReason::TaskFailed(error),
            RollbackExecution::Panicked(panic) => RollbackReason::Panicked(panic),
        }
    }

    /// Combines this unsuccessful state with its rollback outcome, keeping the
    /// original task error or panic unchanged next to the rollback outcome.
    pub fn into_outcome<R, C>(self, rollback: FinalizationOutcome<C>) -> (r: LifecycleOutcome<R, E, C>)
        ensures
            r == self.spec_into_outcome::<R, C>(rollback),
    {
        match self {
            RollbackExecution::ConditionNotMet => LifecycleOutcome::SecondConditionNotMet { rollback },
            RollbackExecution::TaskFailed(error) => LifecycleOutcome::TaskFailed { error, rollback },
            RollbackExecution::Panicked(panic) => LifecycleOutcome::ExecutionPanicked { panic, rollback },
        }
    }
}

} // verus!
