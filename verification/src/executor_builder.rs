//! Configuration builders of the one-shot double-checked lock: logging and
//! panic capture, then the lock, then the predicate.

use vstd::prelude::*;

use crate::dcl::{DclCore, LockFailure, data_outcome_possible, gate_explains, gate_explains_data, outcome_possible};
use crate::execution_result::ExecutionContext;
use crate::executor::{DoubleCheckedLockExecutor, context_of};
use crate::outcome::ExecutionOutcome;
use crate::execution_logger::{ExecutionLogger, LogLevel, converted_message};

verus! {

/// Collects logging and panic-capture configuration before a lock is
/// attached with [`ExecutorBuilder::on`].
#[derive(Debug)]
pub struct ExecutorBuilder {
    /// Logging configuration.
    logger: ExecutionLogger,
    /// Whether panics are captured.
    catch_panics: bool,
}

impl Clone for ExecutorBuilder {
    /// Copies the logging and panic-capture configuration.
    fn clone(&self) -> (r: Self)
        ensures
            r.spec_logger() == self.spec_logger(),
            r.spec_catch_panics() == self.spec_catch_panics(),
    {
        ExecutorBuilder { logger: self.logger.clone(), catch_panics: self.catch_panics }
    }
}

impl Default for ExecutorBuilder {
    /// Default logging configuration and no panic capture.
    fn default() -> (r: Self)
        ensures
            r.spec_logger().is_default(),
            !r.spec_catch_panics(),
    {
        ExecutorBuilder { logger: ExecutionLogger::default(), catch_panics: false }
    }
}

impl ExecutorBuilder {
    /// The logging configuration collected so far.
    pub closed spec fn spec_logger(&self) -> ExecutionLogger {
        self.logger
    }

    /// Whether panic capture is enabled.
    pub closed spec fn spec_catch_panics(&self) -> bool {
        self.catch_panics
    }

    /// `self` is `prev` with unmet conditions logged at `level` with `message`.
    pub open spec fn sets_unmet_condition<M: Into<String>>(self, prev: Self, level: LogLevel, message: M) -> bool {
        &&& self.spec_logger().spec_unmet_condition_level() == Some(level)
        &&& converted_message(message, self.spec_logger().spec_unmet_condition_message())
        &&& prev.spec_logger().same_except_unmet(&self.spec_logger())
        &&& self.spec_catch_panics() == prev.spec_catch_panics()
    }

    /// `self` is `prev` with unmet-condition logging disabled.
    pub open spec fn clears_unmet_condition(self, prev: Self) -> bool {
        &&& self.spec_logger().spec_unmet_condition_level() is None
        &&& self.spec_logger().spec_unmet_condition_message() == prev.spec_logger().spec_unmet_condition_message()
        &&& prev.spec_logger().same_except_unmet(&self.spec_logger())
        &&& self.spec_catch_panics() == prev.spec_catch_panics()
    }

    /// `self` is `prev` with prepare failures logged at `level` with `prefix`.
    pub open spec fn sets_prepare_failure<M: Into<String>>(self, prev: Self, level: LogLevel, prefix: M) -> bool {
        &&& self.spec_logger().spec_prepare_failed_level() == Some(level)
        &&& converted_message(prefix, self.spec_logger().spec_prepare_failed_message())
        &&& prev.spec_logger().same_except_prepare(&self.spec_logger())
        &&& self.spec_catch_panics() == prev.spec_catch_panics()
    }

    /// `self` is `prev` with prepare-failure logging disabled.
    pub open spec fn clears_prepare_failure(self, prev: Self) -> bool {
        &&& self.spec_logger().spec_prepare_failed_level() is None
        &&& self.spec_logger().spec_prepare_failed_message() == prev.spec_logger().spec_prepare_failed_message()
        &&& prev.spec_logger().same_except_prepare(&self.spec_logger())
        &&& self.spec_catch_panics() == prev.spec_catch_panics()
    }

    /// `self` is `prev` with prepare-commit failures logged at `level` with
    /// `prefix`.
    pub open spec fn sets_commit_failure<M: Into<String>>(self, prev: Self, level: LogLevel, prefix: M) -> bool {
        &&& self.spec_logger().spec_prepare_commit_failed_level() == Some(level)
        &&& converted_message(prefix, self.spec_logger().spec_prepare_commit_failed_message())
        &&& prev.spec_logger().same_except_commit(&self.spec_logger())
        &&& self.spec_catch_panics() == prev.spec_catch_panics()
    }

    /// `self` is `prev` with prepare-commit failure logging disabled.
    pub open spec fn clears_commit_failure(self, prev: Self) -> bool {
        &&& self.spec_logger().spec_prepare_commit_failed_level() is None
        &&& self.spec_logger().spec_prepare_commit_failed_message()
            == prev.spec_logger().spec_prepare_commit_failed_message()
        &&& prev.spec_logger().same_except_commit(&self.spec_logger())
        &&& self.spec_catch_panics() == prev.spec_catch_panics()
    }

    /// `self` is `prev` with prepare-rollback failures logged at `level` with
    /// `prefix`.
    pub open spec fn sets_rollback_failure<M: Into<String>>(self, prev: Self, level: LogLevel, prefix: M) -> bool {
        &&& self.spec_logger().spec_prepare_rollback_failed_level() == Some(level)
        &&& converted_message(prefix, self.spec_logger().spec_prepare_rollback_failed_message())
        &&& prev.spec_logger().same_except_rollback(&self.spec_logger())
        &&& self.spec_catch_panics() == prev.spec_catch_panics()
    }

    /// `self` is `prev` with prepare-rollback failure logging disabled.
    pub open spec fn clears_rollback_failure(self, prev: Self) -> bool {
        &&& self.spec_logger().spec_prepare_rollback_failed_level() is None
        &&& self.spec_logger().spec_prepare_rollback_failed_message()
            == prev.spec_logger().spec_prepare_rollback_failed_message()
        &&& prev.spec_logger().same_except_rollback(&self.spec_logger())
        &&& self.spec_catch_panics() == prev.spec_catch_panics()
    }

    /// `self` is `prev` with panic capture set to `catch_panics`.
    pub open spec fn sets_panic_capture(self, prev: Self, catch_panics: bool) -> bool {
        &&& self.spec_logger() == prev.spec_logger()
        &&& self.spec_catch_panics() == catch_panics
    }

    /// Logs unmet conditions at `level` with the full line `message`.
    pub fn log_unmet_condition<M: Into<String>>(self, level: LogLevel, message: M) -> (r: Self)
        ensures
            r.sets_unmet_condition(self, level, message),
    {
        let mut logger = self.logger;
        logger.set_unmet_condition(Some(level), message);
        ExecutorBuilder { logger, catch_panics: self.catch_panics }
    }

    /// Disables unmet-condition logging; the stored line is kept.
    pub fn disable_unmet_condition_logging(self) -> (r: Self)
        ensures
            r.clears_unmet_condition(self),
    {
        let mut logger = self.logger;
        logger.disable_unmet_condition();
        ExecutorBuilder { logger, catch_panics: self.catch_panics }
    }

    /// Logs prepare failures at `level` as `"{prefix}: {error}"`.
    pub fn log_prepare_failure<M: Into<String>>(self, level: LogLevel, message_prefix: M) -> (r: Self)
        ensures
            r.sets_prepare_failure(self, level, message_prefix),
    {
        let mut logger = self.logger;
        logger.set_prepare_failure(Some(level), message_prefix);
        ExecutorBuilder { logger, catch_panics: self.catch_panics }
    }

    /// Disables prepare-failure logging; the prefix is kept.
    pub fn disable_prepare_failure_logging(self) -> (r: Self)
        ensures
            r.clears_prepare_failure(self),
    {
        let mut logger = self.logger;
        logger.disable_prepare_failure();
        ExecutorBuilder { logger, catch_panics: self.catch_panics }
    }

    /// Logs prepare-commit failures at `level` as `"{prefix}: {error}"`.
    pub fn log_prepare_commit_failure<M: Into<String>>(self, level: LogLevel, message_prefix: M) -> (r: Self)
        ensures
            r.sets_commit_failure(self, level, message_prefix),
    {
        let mut logger = self.logger;
        logger.set_prepare_commit_failure(Some(level), message_prefix);
        ExecutorBuilder { logger, catch_panics: self.catch_panics }
    }

    /// Disables prepare-commit failure logging; the prefix is kept.
    pub fn disable_prepare_commit_failure_logging(self) -> (r: Self)
        ensures
            r.clears_commit_failure(self),
    {
        let mut logger = self.logger;
        logger.disable_prepare_commit_failure();
        ExecutorBuilder { logger, catch_panics: self.catch_panics }
    }

    /// Logs prepare-rollback failures at `level` as `"{prefix}: {error}"`.
    pub fn log_prepare_rollback_failure<M: Into<String>>(self, level: LogLevel, message_prefix: M) -> (r: Self)
        ensures
            r.sets_rollback_failure(self, level, message_prefix),
    {
        let mut logger = self.logger;
        logger.set_prepare_rollback_failure(Some(level), message_prefix);
        ExecutorBuilder { logger, catch_panics: self.catch_panics }
    }

    /// Disables prepare-rollback failure logging; the prefix is kept.
    pub fn disable_prepare_rollback_failure_logging(self) -> (r: Self)
        ensures
            r.clears_rollback_failure(self),
    {
        let mut logger = self.logger;
        logger.disable_prepare_rollback_failure();
        ExecutorBuilder { logger, catch_panics: self.catch_panics }
    }

    /// Enables panic capture.
    pub fn catch_panics(self) -> (r: Self)
        ensures
            r.sets_panic_capture(self, true),
    {
        ExecutorBuilder { logger: self.logger, catch_panics: true }
    }

    /// Sets whether panics are captured.
    pub fn with_panic_capture(self, catch_panics: bool) -> (r: Self)
        ensures
            r.sets_panic_capture(self, catch_panics),
    {
        ExecutorBuilder { logger: self.logger, catch_panics: catch_panics }
    }

    /// Disables panic capture.
    pub fn disable_catch_panics(self) -> (r: Self)
        ensures
            r.sets_panic_capture(self, false),
    {
        ExecutorBuilder { logger: self.logger, catch_panics: false }
    }

    /// Attaches the lock that protects the data of the execution.
    pub fn on<L, T: ?Sized>(self, lock: L) -> (r: DoubleCheckedLockBuilder<L, T>)
        where
            L: qubit_lock::DataLock<T>,
        ensures
            r.spec_config() == self,
            r.spec_lock() == lock,
    {
        DoubleCheckedLockBuilder { config: self, lock, marker: core::marker::PhantomData }
    }
}

/// Entry point of one-shot double-checked lock execution.
#[derive(Debug, Clone, Copy, PartialEq, Eq, Structural)]
pub struct DoubleCheckedLock;

impl DoubleCheckedLock {
    /// Starts one-shot configuration by attaching a lock, with the default
    /// logging configuration and no panic capture.
    pub fn on<L, T: ?Sized>(lock: L) -> (r: DoubleCheckedLockBuilder<L, T>)
        where
            L: qubit_lock::DataLock<T>,
        ensures
            r.spec_config().spec_logger().is_default(),
            !r.spec_config().spec_catch_panics(),
            r.spec_lock() == lock,
    {
        ExecutorBuilder::default().on(lock)
    }
}

/// Builder stage that owns a lock and configuration and requires a
/// predicate.
pub struct DoubleCheckedLockBuilder<L, T: ?Sized> {
    /// Logging and panic-capture configuration.
    config: ExecutorBuilder,
    /// Lock protecting the data.
    lock: L,
    /// Associates the builder with the lock's protected type.
    marker: core::marker::PhantomData<T>,
}

impl<L, T: ?Sized> DoubleCheckedLockBuilder<L, T> {
    /// The configuration collected so far.
    pub closed spec fn spec_config(&self) -> ExecutorBuilder {
        self.config
    }

    /// The attached lock.
    pub closed spec fn spec_lock(&self) -> L {
        self.lock
    }

    /// Logs unmet conditions at `level` with the full line `message`.
    pub fn log_unmet_condition<M: Into<String>>(self, level: LogLevel, message: M) -> (r: Self)
        ensures
            r.spec_config().sets_unmet_condition(self.spec_config(), level, message),
            r.spec_lock() == self.spec_lock(),
    {
        let config = self.config.log_unmet_condition(level, message);
        DoubleCheckedLockBuilder { config, lock: self.lock, marker: core::marker::PhantomData }
    }

    /// Disables unmet-condition logging; the stored line is kept.
    pub fn disable_unmet_condition_logging(self) -> (r: Self)
        ensures
            r.spec_config().clears_unmet_condition(self.spec_config()),
            r.spec_lock() == self.spec_lock(),
    {
        let config = self.config.disable_unmet_condition_logging();
        DoubleCheckedLockBuilder { config, lock: self.lock, marker: core::marker::PhantomData }
    }

    /// Logs prepare failures at `level` as `"{prefix}: {error}"`.
    pub fn log_prepare_failure<M: Into<String>>(self, level: LogLevel, message_prefix: M) -> (r: Self)
        ensures
            r.spec_config().sets_prepare_failure(self.spec_config(), level, message_prefix),
            r.spec_lock() == self.spec_lock(),
    {
        let config = self.config.log_prepare_failure(level, message_prefix);
        DoubleCheckedLockBuilder { config, lock: self.lock, marker: core::marker::PhantomData }
    }

    /// Disables prepare-failure logging; the prefix is kept.
    pub fn disable_prepare_failure_logging(self) -> (r: Self)
        ensures
            r.spec_config().clears_prepare_failure(self.spec_config()),
            r.spec_lock() == self.spec_lock(),
    {
        let config = self.config.disable_prepare_failure_logging();
        DoubleCheckedLockBuilder { config, lock: self.lock, marker: core::marker::PhantomData }
    }

    /// Logs prepare-commit failures at `level` as `"{prefix}: {error}"`.
    pub fn log_prepare_commit_failure<M: Into<String>>(self, level: LogLevel, message_prefix: M) -> (r: Self)
        ensures
            r.spec_config().sets_commit_failure(self.spec_config(), level, message_prefix),
            r.spec_lock() == self.spec_lock(),
    {
        let config = self.config.log_prepare_commit_failure(level, message_prefix);
        DoubleCheckedLockBuilder { config, lock: self.lock, marker: core::marker::PhantomData }
    }

    /// Disables prepare-commit failure logging; the prefix is kept.
    pub fn disable_prepare_commit_failure_logging(self) -> (r: Self)
        ensures
            r.spec_config().clears_commit_failure(self.spec_config()),
            r.spec_lock() == self.spec_lock(),
    {
        let config = self.config.disable_prepare_commit_failure_logging();
        DoubleCheckedLockBuilder { config, lock: self.lock, marker: core::marker::PhantomData }
    }

    /// Logs prepare-rollback failures at `level` as `"{prefix}: {error}"`.
    pub fn log_prepare_rollback_failure<M: Into<String>>(self, level: LogLevel, message_prefix: M) -> (r: Self)
        ensures
            r.spec_config().sets_rollback_failure(self.spec_config(), level, message_prefix),
            r.spec_lock() == self.spec_lock(),
    {
        let config = self.config.log_prepare_rollback_failure(level, message_prefix);
        DoubleCheckedLockBuilder { config, lock: self.lock, marker: core::marker::PhantomData }
    }

    /// Disables prepare-rollback failure logging; the prefix is kept.
    pub fn disable_prepare_rollback_failure_logging(self) -> (r: Self)
        ensures
            r.spec_config().clears_rollback_failure(self.spec_config()),
            r.spec_lock() == self.spec_lock(),
    {
        let config = self.config.disable_prepare_rollback_failure_logging();
        DoubleCheckedLockBuilder { config, lock: self.lock, marker: core::marker::PhantomData }
    }

    /// Enables panic capture.
    pub fn catch_panics(self) -> (r: Self)
        ensures
            r.spec_config().sets_panic_capture(self.spec_config(), true),
            r.spec_lock() == self.spec_lock(),
    {
        let config = self.config.catch_panics();
        DoubleCheckedLockBuilder { config, lock: self.lock, marker: core::marker::PhantomData }
    }

    /// Sets whether panics are captured.
    pub fn with_panic_capture(self, catch_panics: bool) -> (r: Self)
        ensures
            r.spec_config().sets_panic_capture(self.spec_config(), catch_panics),
            r.spec_lock() == self.spec_lock(),
    {
        let config = self.config.with_panic_capture(catch_panics);
        DoubleCheckedLockBuilder { config, lock: self.lock, marker: core::marker::PhantomData }
    }

    /// Disables panic capture.
    pub fn disable_catch_panics(self) -> (r: Self)
        ensures
            r.spec_config().sets_panic_capture(self.spec_config(), false),
            r.spec_lock() == self.spec_lock(),
    {
        let config = self.config.disable_catch_panics();
        DoubleCheckedLockBuilder { config, lock: self.lock, marker: core::marker::PhantomData }
    }

    /// Sets the lock-free condition evaluated before and after locking.
    pub fn when<Pred>(self, predicate: Pred) -> (r: DoubleCheckedLockReadyBuilder<L, T, Pred>)
        where
            Pred: Fn() -> bool + Send + Sync + 'static,
        ensures
            r.spec_config() == self.spec_config(),
            r.spec_lock() == self.spec_lock(),
            r.spec_predicate() == predicate,
    {
        DoubleCheckedLockReadyBuilder {
            config: self.config,
            lock: self.lock,
            core: DclCore::new(predicate),
            marker: core::marker::PhantomData,
        }
    }
}

/// Builder stage that owns the lock, configuration and predicate; it builds
/// the executor or runs one task directly.
pub struct DoubleCheckedLockReadyBuilder<L, T: ?Sized, Pred> {
    /// Logging and panic-capture configuration.
    config: ExecutorBuilder,
    /// Lock protecting the data.
    lock: L,
    /// Predicate configuration.
    core: DclCore<Pred>,
    /// Associates the builder with the lock's protected type.
    marker: core::marker::PhantomData<T>,
}

impl<L, T: ?Sized, Pred> DoubleCheckedLockReadyBuilder<L, T, Pred> {
    /// The configuration collected so far.
    pub closed spec fn spec_config(&self) -> ExecutorBuilder {
        self.config
    }

    /// The attached lock.
    pub closed spec fn spec_lock(&self) -> L {
        self.lock
    }

    /// The configured predicate.
    pub closed spec fn spec_predicate(&self) -> Pred {
        self.core.spec_predicate()
    }

    /// Logs unmet conditions at `level` with the full line `message`.
    pub fn log_unmet_condition<M: Into<String>>(self, level: LogLevel, message: M) -> (r: Self)
        ensures
            r.spec_config().sets_unmet_condition(self.spec_config(), level, message),
            r.spec_lock() == self.spec_lock(),
            r.spec_predicate() == self.spec_predicate(),
    {
        let config = self.config.log_unmet_condition(level, message);
        DoubleCheckedLockReadyBuilder { config, lock: self.lock, core: self.core, marker: core::marker::PhantomData }
    }

    /// Disables unmet-condition logging; the stored line is kept.
    pub fn disable_unmet_condition_logging(self) -> (r: Self)
        ensures
            r.spec_config().clears_unmet_condition(self.spec_config()),
            r.spec_lock() == self.spec_lock(),
            r.spec_predicate() == self.spec_predicate(),
    {
        let config = self.config.disable_unmet_condition_logging();
        DoubleCheckedLockReadyBuilder { config, lock: self.lock, core: self.core, marker: core::marker::PhantomData }
    }

    /// Logs prepare failures at `level` as `"{prefix}: {error}"`.
    pub fn log_prepare_failure<M: Into<String>>(self, level: LogLevel, message_prefix: M) -> (r: Self)
        ensures
            r.spec_config().sets_prepare_failure(self.spec_config(), level, message_prefix),
            r.spec_lock() == self.spec_lock(),
            r.spec_predicate() == self.spec_predicate(),
    {
        let config = self.config.log_prepare_failure(level, message_prefix);
        DoubleCheckedLockReadyBuilder { config, lock: self.lock, core: self.core, marker: core::marker::PhantomData }
    }

    /// Disables prepare-failure logging; the prefix is kept.
    pub fn disable_prepare_failure_logging(self) -> (r: Self)
        ensures
            r.spec_config().clears_prepare_failure(self.spec_config()),
            r.spec_lock() == self.spec_lock(),
            r.spec_predicate() == self.spec_predicate(),
    {
        let config = self.config.disable_prepare_failure_logging();
        DoubleCheckedLockReadyBuilder { config, lock: self.lock, core: self.core, marker: core::marker::PhantomData }
    }

    /// Logs prepare-commit failures at `level` as `"{prefix}: {error}"`.
    pub fn log_prepare_commit_failure<M: Into<String>>(self, level: LogLevel, message_prefix: M) -> (r: Self)
        ensures
            r.spec_config().sets_commit_failure(self.spec_config(), level, message_prefix),
            r.spec_lock() == self.spec_lock(),
            r.spec_predicate() == self.spec_predicate(),
    {
        let config = self.config.log_prepare_commit_failure(level, message_prefix);
        DoubleCheckedLockReadyBuilder { config, lock: self.lock, core: self.core, marker: core::marker::PhantomData }
    }

    /// Disables prepare-commit failure logging; the prefix is kept.
    pub fn disable_prepare_commit_failure_logging(self) -> (r: Self)
        ensures
            r.spec_config().clears_commit_failure(self.spec_config()),
            r.spec_lock() == self.spec_lock(),
            r.spec_predicate() == self.spec_predicate(),
    {
        let config = self.config.disable_prepare_commit_failure_logging();
        DoubleCheckedLockReadyBuilder { config, lock: self.lock, core: self.core, marker: core::marker::PhantomData }
    }

    /// Logs prepare-rollback failures at `level` as `"{prefix}: {error}"`.
    pub fn log_prepare_rollback_failure<M: Into<String>>(self, level: LogLevel, message_prefix: M) -> (r: Self)
        ensures
            r.spec_config().sets_rollback_failure(self.spec_config(), level, message_prefix),
            r.spec_lock() == self.spec_lock(),
            r.spec_predicate() == self.spec_predicate(),
    {
        let config = self.config.log_prepare_rollback_failure(level, message_prefix);
        DoubleCheckedLockReadyBuilder { config, lock: self.lock, core: self.core, marker: core::marker::PhantomData }
    }

    /// Disables prepare-rollback failure logging; the prefix is kept.
    pub fn disable_prepare_rollback_failure_logging(self) -> (r: Self)
        ensures
            r.spec_config().clears_rollback_failure(self.spec_config()),
            r.spec_lock() == self.spec_lock(),
            r.spec_predicate() == self.spec_predicate(),
    {
        let config = self.config.disable_prepare_rollback_failure_logging();
        DoubleCheckedLockReadyBuilder { config, lock: self.lock, core: self.core, marker: core::marker::PhantomData }
    }

    /// Enables panic capture.
    pub fn catch_panics(self) -> (r: Self)
        ensures
            r.spec_config().sets_panic_capture(self.spec_config(), true),
            r.spec_lock() == self.spec_lock(),
            r.spec_predicate() == self.spec_predicate(),
    {
        let config = self.config.catch_panics();
        DoubleCheckedLockReadyBuilder { config, lock: self.lock, core: self.core, marker: core::marker::PhantomData }
    }

    /// Sets whether panics are captured.
    pub fn with_panic_capture(self, catch_panics: bool) -> (r: Self)
        ensures
            r.spec_config().sets_panic_capture(self.spec_config(), catch_panics),
            r.spec_lock() == self.spec_lock(),
            r.spec_predicate() == self.spec_predicate(),
    {
        let config = self.config.with_panic_capture(catch_panics);
        DoubleCheckedLockReadyBuilder { config, lock: self.lock, core: self.core, marker: core::marker::PhantomData }
    }

    /// Disables panic capture.
    pub fn disable_catch_panics(self) -> (r: Self)
        ensures
            r.spec_config().sets_panic_capture(self.spec_config(), false),
            r.spec_lock() == self.spec_lock(),
            r.spec_predicate() == self.spec_predicate(),
    {
        let config = self.config.disable_catch_panics();
        DoubleCheckedLockReadyBuilder { config, lock: self.lock, core: self.core, marker: core::marker::PhantomData }
    }

    /// Builds the reusable executor.
    pub fn build(self) -> (r: DoubleCheckedLockExecutor<L, T, Pred>)
        ensures
            r.spec_lock() == self.spec_lock(),
            r.spec_predicate() == self.spec_predicate(),
            r.spec_logger() == self.spec_config().spec_logger(),
            r.spec_catch_panics() == self.spec_config().spec_catch_panics(),
    {
        DoubleCheckedLockExecutor::assemble(self.lock, self.core, self.config.logger, self.config.catch_panics)
    }
}

impl<L, T: ?Sized, Pred: Fn() -> bool> DoubleCheckedLockReadyBuilder<L, T, Pred> {
    /// Builds the executor and runs one task with it, taking the lock
    /// without blocking.
    pub fn try_call<R, E, F>(self, task: F) -> (r: Result<ExecutionContext<R, E>, LockFailure>)
        where
            L: qubit_lock::DataLock<T>,
            F: FnOnce() -> Result<R, E>,
        requires
            self.spec_predicate().requires(()),
            task.requires(()),
        ensures
            exists|ran: Result<ExecutionOutcome<R, E>, LockFailure>| #[trigger] context_of(ran, r)
                && gate_explains(self.spec_predicate(), task, ran) && match ran {
                Ok(outcome) => outcome_possible(self.spec_predicate(), task, outcome),
                Err(_) => self.spec_predicate().ensures((), true),
            },
    {
        self.build().try_call(task)
    }

    /// Builds the executor and runs one task without return value with it.
    pub fn try_execute<E, F>(self, task: F) -> (r: Result<ExecutionContext<(), E>, LockFailure>)
        where
            L: qubit_lock::DataLock<T>,
            F: FnOnce() -> Result<(), E>,
        requires
            self.spec_predicate().requires(()),
            task.requires(()),
        ensures
            exists|ran: Result<ExecutionOutcome<(), E>, LockFailure>| #[trigger] context_of(ran, r)
                && gate_explains(self.spec_predicate(), task, ran) && match ran {
                Ok(outcome) => outcome_possible(self.spec_predicate(), task, outcome),
                Err(_) => self.spec_predicate().ensures((), true),
            },
    {
        self.build().try_execute(task)
    }
}

impl<L, T, Pred: Fn() -> bool> DoubleCheckedLockReadyBuilder<L, T, Pred> {
    /// Builds the executor and runs one data-accessing task with it.
    pub fn try_call_with<R, E, F>(self, task: F) -> (r: Result<ExecutionContext<R, E>, LockFailure>)
        where
            L: qubit_lock::DataLock<T>,
            F: FnOnce(&mut T) -> Result<R, E>,
        requires
            self.spec_predicate().requires(()),
            forall|data: &mut T| task.requires((data,)),
        ensures
            exists|ran: Result<ExecutionOutcome<R, E>, LockFailure>| #[trigger] context_of(ran, r)
                && gate_explains_data::<Pred, T, R, E, F>(self.spec_predicate(), task, ran) && match ran {
                Ok(outcome) => data_outcome_possible(self.spec_predicate(), task, outcome),
                Err(_) => self.spec_predicate().ensures((), true),
            },
    {
        self.build().try_call_with(task)
    }

    /// Builds the executor and runs one data-accessing task without return
    /// value with it.
    pub fn try_execute_with<E, F>(self, task: F) -> (r: Result<ExecutionContext<(), E>, LockFailure>)
        where
            L: qubit_lock::DataLock<T>,
            F: FnOnce(&mut T) -> Result<(), E>,
        requires
            self.spec_predicate().requires(()),
            forall|data: &mut T| task.requires((data,)),
        ensures
            exists|ran: Result<ExecutionOutcome<(), E>, LockFailure>| #[trigger] context_of(ran, r)
                && gate_explains_data::<Pred, T, (), E, F>(self.spec_predicate(), task, ran) && match ran {
                Ok(outcome) => data_outcome_possible(self.spec_predicate(), task, outcome),
                Err(_) => self.spec_predicate().ensures((), true),
            },
    {
        self.build().try_execute_with(task)
    }
}

/// Setting panic capture twice keeps only the last setting: the result is
/// the configuration that the last call alone makes from the start.
pub proof fn law_last_panic_capture_setting_wins(
    start: ExecutorBuilder,
    middle: ExecutorBuilder,
    end: ExecutorBuilder,
    first: bool,
    last: bool,
)
    requires
        middle.sets_panic_capture(start, first),
        end.sets_panic_capture(middle, last),
    ensures
        end.sets_panic_capture(start, last),
{
}

} // verus!
