//! Errors reported by context-returning executions.

use vstd::prelude::*;
use vstd::string::StringExecFns;

use crate::callback_error::CallbackError;

verus! {

/// Errors of double-checked execution with prepare actions.
#[derive(Debug)]
pub enum ExecutorError<E> {
    /// Task execution failed with its original error.
    TaskFailed(E),
    /// Task execution panicked.
    Panic(CallbackError),
    /// The prepare action failed.
    PrepareFailed(CallbackError),
    /// The commit action for a successfully completed prepare action failed.
    PrepareCommitFailed(CallbackError),
    /// The rollback action for a successfully completed prepare action failed.
    PrepareRollbackFailed {
        /// The original error that triggered the rollback.
        original: CallbackError,
        /// The error that occurred during prepare rollback.
        rollback: CallbackError,
    },
}

impl<E> ExecutorError<E> {
    /// The callback type label of this error: none for task failures, the
    /// label of the callback error otherwise, preferring the rollback label
    /// over the original one for rollback failures.
    pub open spec fn spec_callback_type(&self) -> Option<&'static str> {
        match *self {
            ExecutorError::TaskFailed(_) => None,
            ExecutorError::Panic(error) => error.spec_callback_type(),
            ExecutorError::PrepareFailed(error) => error.spec_callback_type(),
            ExecutorError::PrepareCommitFailed(error) => error.spec_callback_type(),
            ExecutorError::PrepareRollbackFailed { original, rollback } => match rollback.spec_callback_type() {
                Some(label) => Some(label),
                None => original.spec_callback_type(),
            },
        }
    }

    /// Returns the callback type label, when the error comes from a callback
    /// that carries one.
    pub fn callback_type(&self) -> (r: Option<&'static str>)
        ensures
            r == self.spec_callback_type(),
    {
        match self {
            ExecutorError::TaskFailed(_) => None,
            ExecutorError::Panic(error) => error.callback_type(),
            ExecutorError::PrepareFailed(error) => error.callback_type(),
            ExecutorError::PrepareCommitFailed(error) => error.callback_type(),
            ExecutorError::PrepareRollbackFailed { original, rollback } => match rollback.callback_type() {
                Some(label) => Some(label),
                None => original.callback_type(),
            },
        }
    }

    /// The text of a callback-side error, after its fixed prefix.
    pub open spec fn spec_callback_display(&self) -> Seq<char> {
        match *self {
            ExecutorError::TaskFailed(_) => Seq::empty(),
            ExecutorError::Panic(error) => "Execution panicked: "@ + error.spec_display(),
            ExecutorError::PrepareFailed(error) => "Preparation action failed: "@ + error.spec_display(),
            ExecutorError::PrepareCommitFailed(error) => "Prepare commit action failed: "@
                + error.spec_display(),
            ExecutorError::PrepareRollbackFailed { original, rollback } => "Prepare rollback failed: original error = "@
                + original.spec_display() + ", rollback error = "@ + rollback.spec_display(),
        }
    }

    /// Formats this error for user-facing diagnostics, with a prefix naming
    /// the failing step.
    pub fn to_display_string(&self) -> (r: String)
        where
            E: core::fmt::Display,
        ensures
            self is TaskFailed ==> exists|shown: String|
                vstd::string::to_string_from_display_ensures::<E>(&self->TaskFailed_0, shown)
                    && r@ == "Task execution failed: "@ + shown@,
            !(self is TaskFailed) ==> r@ == self.spec_callback_display(),
    {
        match self {
            ExecutorError::TaskFailed(error) => {
                let shown = error.to_string();
                let mut text = String::new();
                text.append("Task execution failed: ");
                text.append(shown.as_str());
                assert(text@ =~= "Task execution failed: "@ + shown@);
                text
            },
            ExecutorError::Panic(error) => {
                let mut text = String::new();
                text.append("Execution panicked: ");
                text.append(error.to_display_string().as_str());
                assert(text@ =~= self.spec_callback_display());
                text
            },
            ExecutorError::PrepareFailed(error) => {
                let mut text = String::new();
                text.append("Preparation action failed: ");
                text.append(error.to_display_string().as_str());
                assert(text@ =~= self.spec_callback_display());
                text
            },
            ExecutorError::PrepareCommitFailed(error) => {
                let mut text = String::new();
                text.append("Prepare commit action failed: ");
                text.append(error.to_display_string().as_str());
                assert(text@ =~= self.spec_callback_display());
                text
            },
            ExecutorError::PrepareRollbackFailed { original, rollback } => {
                let mut text = String::new();
                text.append("Prepare rollback failed: original error = ");
                text.append(original.to_display_string().as_str());
                text.append(", rollback error = ");
                text.append(rollback.to_display_string().as_str());
                assert(text@ =~= self.spec_callback_display());
                text
            },
        }
    }
}

} // verus!
