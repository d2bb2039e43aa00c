//! Reusable double-checked locking executors for atomic or equivalently
//! synchronized gates, with structured outcomes, a verified lifecycle protocol
//! (prepare, locked task, commit or rollback), and result, error and logging
//! types for context-returning executions.

pub mod panic;
pub mod outcome;

pub use panic::{PanicInfo, PanicPayload, PanicPhase};
pub use outcome::{
    ExecutionOutcome, ExecutionReport, FinalizationOutcome, LifecycleOutcome, PreparationOutcome,
    RollbackCause, TaskErrorRef,
};
pub mod execution;
pub use execution::{LockedExecution, RollbackExecution, RollbackReason};
pub mod lifecycle;
pub use lifecycle::{LifecycleAction, LifecycleRun, LifecycleState};
pub mod dcl;
pub mod gate;
pub use gate::{GateAction, GateRun, GateState};
pub use dcl::{DclCore, LockFailure};
pub mod executor;
pub use executor::{
    DclExecutor, DclExecutorBuilder, DclExecutorReadyBuilder, DoubleCheckedLockExecutor,
    DoubleCheckedLockExecutorBuilder, DoubleCheckedLockExecutorReadyBuilder,
};
pub mod lifecycle_executor;
pub use lifecycle_executor::{
    LifecycleCommitBuilder, LifecycleDclExecutor, LifecycleDclExecutorBuilder,
    LifecycleDoubleCheckedLockExecutor, LifecycleDoubleCheckedLockExecutorBuilder,
    LifecyclePredicateBuilder, LifecyclePrepareBuilder, LifecycleReadyBuilder,
    LifecycleRollbackBuilder, NoCommit, NoRollback,
};
pub mod callback_error;
pub use callback_error::CallbackError;
pub mod executor_error;
pub use executor_error::ExecutorError;
pub mod execution_result;
pub use execution_result::{ExecutionContext, ExecutionResult};
pub mod execution_logger;
pub use execution_logger::{ExecutionLogger, LogLevel};
pub mod executor_builder;
pub use executor_builder::{
    DoubleCheckedLock, DoubleCheckedLockBuilder, DoubleCheckedLockReadyBuilder, ExecutorBuilder,
};
