//! The basic double-checked executors and their builders.

use vstd::prelude::*;

use crate::dcl::{
    DclCore, LockFailure, data_outcome_possible, gate_after_attempt, gate_explains, gate_explains_data,
    outcome_possible, try_run_holding_write_lock_of,
    try_run_with_write_data_of,
};
use crate::execution_logger::ExecutionLogger;
use crate::execution_result::{ExecutionContext, ExecutionResult};
use crate::outcome::ExecutionOutcome;

verus! {

/// Executes tasks under a caller-supplied lock when both predicate checks
/// pass. The executor owns neither a lock nor protected data; each call of
/// run supplies the lock mode to use.
pub struct DclExecutor<Pred> {
    /// Shared predicate.
    core: DclCore<Pred>,
}

/// Builder stage that cannot build before a predicate is supplied.
pub struct DclExecutorBuilder;

/// Builder stage that holds the predicate and can build the executor.
pub struct DclExecutorReadyBuilder<Pred> {
    /// Predicate configuration.
    core: DclCore<Pred>,
}

impl DclExecutor<()> {
    /// Starts building an executor.
    pub fn builder() -> (r: DclExecutorBuilder) {
        DclExecutorBuilder
    }
}

impl DclExecutorBuilder {
    /// Sets the lock-free condition evaluated before and after locking.
    pub fn when<Pred>(self, predicate: Pred) -> (r: DclExecutorReadyBuilder<Pred>)
        where
            Pred: Fn() -> bool + Send + Sync + 'static,
        ensures
            r.spec_predicate() == predicate,
    {
        DclExecutorReadyBuilder { core: DclCore::new(predicate) }
    }
}

impl<Pred> DclExecutorReadyBuilder<Pred> {
    /// The configured predicate.
    pub closed spec fn spec_predicate(&self) -> Pred {
        self.core.spec_predicate()
    }

    /// Builds the executor.
    pub fn build(self) -> (r: DclExecutor<Pred>)
        ensures
            r.spec_predicate() == self.spec_predicate(),
    {
        DclExecutor { core: self.core }
    }
}

impl<Pred> DclExecutor<Pred> {
    /// The configured predicate.
    pub closed spec fn spec_predicate(&self) -> Pred {
        self.core.spec_predicate()
    }

    /// Creates an executor directly from its predicate.
    pub fn new(predicate: Pred) -> (r: Self)
        where
            Pred: Fn() -> bool + Send + Sync + 'static,
        ensures
            r.spec_predicate() == predicate,
    {
        DclExecutor { core: DclCore::new(predicate) }
    }
}

impl<Pred> Clone for DclExecutor<Pred> {
    /// Shares the predicate with the clone.
    fn clone(&self) -> (r: Self)
        ensures
            r.spec_predicate() == self.spec_predicate(),
    {
        DclExecutor { core: self.core.clone() }
    }
}

impl<Pred: Fn() -> bool> DclExecutor<Pred> {
    /// Runs `task` only when both condition checks succeed, taking `lock`
    /// without blocking.
    ///
    /// The first predicate call acquires no lock. When it returns `false` the
    /// result is `Ok(ConditionNotMet)` and neither the lock nor the task is
    /// touched. Otherwise one attempt is made to take `lock`; when it is
    /// taken, the predicate is evaluated again and the task runs while the
    /// guard is held only when that second check returns `true`. A task
    /// error is kept unchanged in `TaskFailed`. A busy or poisoned lock is
    /// reported as `Err` and the task is not run.
    pub fn try_run<L, R, E, F>(&self, lock: &L, task: F) -> (r: Result<ExecutionOutcome<R, E>, LockFailure>)
        where
            L: qubit_lock::Lock + ?Sized,
            F: FnOnce() -> Result<R, E>,
        requires
            self.spec_predicate().requires(()),
            task.requires(()),
        ensures
            match r {
                Ok(outcome) => outcome_possible(self.spec_predicate(), task, outcome),
                Err(_) => self.spec_predicate().ensures((), true),
            },
            gate_explains(self.spec_predicate(), task, r),
    {
        self.core.try_run(lock, task)
    }

    /// Runs `task` only when both condition checks succeed, with the lock
    /// taken by `acquire`, which is called only after the first check passed
    /// and whose guard is held while the second check and the task run.
    pub fn run_acquiring<G, A, R, E, F>(&self, acquire: A, task: F) -> (r: ExecutionOutcome<R, E>)
        where
            A: FnOnce() -> G,
            F: FnOnce() -> Result<R, E>,
        requires
            self.spec_predicate().requires(()),
            acquire.requires(()),
            task.requires(()),
        ensures
            outcome_possible(self.spec_predicate(), task, r),
            !(r is ConditionNotMet) ==> exists|guard: G| #[trigger] acquire.ensures((), guard),
            gate_explains(self.spec_predicate(), task, Ok::<ExecutionOutcome<R, E>, LockFailure>(r)),
    {
        self.core.run_acquiring(acquire, task)
    }
}


/// Executes tasks with the double-checked locking pattern around a lock that
/// it owns. The first predicate call is lock-free; the second call and the
/// task run inside one write-mode acquisition of the owned lock. The protected
/// data is deliberately exposed to neither the predicate nor the task.
pub struct DoubleCheckedLockExecutor<L, T: ?Sized, Pred> {
    /// Owned lock used for the protected phase.
    lock: L,
    /// Shared predicate.
    core: DclCore<Pred>,
    /// Logging configuration for callers that report execution events.
    logger: ExecutionLogger,
    /// Whether the caller asked for panics to be captured.
    catch_panics: bool,
    /// Associates the executor with the lock's protected type.
    marker: core::marker::PhantomData<T>,
}

/// Builder stage that owns a lock but cannot proceed without a predicate.
pub struct DoubleCheckedLockExecutorBuilder<L, T: ?Sized> {
    /// Lock supplied by the caller.
    lock: L,
    /// Associates the builder with the lock's protected type.
    marker: core::marker::PhantomData<T>,
}

/// Builder stage that owns the lock and predicate and can build.
pub struct DoubleCheckedLockExecutorReadyBuilder<L, T: ?Sized, Pred> {
    /// Lock supplied by the caller.
    lock: L,
    /// Predicate configuration.
    core: DclCore<Pred>,
    /// Whether the caller asked for panics to be captured.
    catch_panics: bool,
    /// Associates the builder with the lock's protected type.
    marker: core::marker::PhantomData<T>,
}

impl DoubleCheckedLockExecutor<(), (), ()> {
    /// Starts building an executor around `lock`.
    pub fn builder<L, T: ?Sized>(lock: L) -> (r: DoubleCheckedLockExecutorBuilder<L, T>)
        where
            L: qubit_lock::DataLock<T>,
        ensures
            r.spec_lock() == lock,
    {
        DoubleCheckedLockExecutorBuilder { lock, marker: core::marker::PhantomData }
    }
}

impl<L, T: ?Sized> DoubleCheckedLockExecutorBuilder<L, T> {
    /// The lock that the executor will own.
    pub closed spec fn spec_lock(&self) -> L {
        self.lock
    }

    /// Sets the lock-free condition evaluated before and after locking.
    pub fn when<Pred>(self, predicate: Pred) -> (r: DoubleCheckedLockExecutorReadyBuilder<L, T, Pred>)
        where
            Pred: Fn() -> bool + Send + Sync + 'static,
        ensures
            r.spec_lock() == self.spec_lock(),
            r.spec_predicate() == predicate,
            !r.spec_catch_panics(),
    {
        DoubleCheckedLockExecutorReadyBuilder {
            lock: self.lock,
            core: DclCore::new(predicate),
            catch_panics: false,
            marker: core::marker::PhantomData,
        }
    }
}

impl<L, T: ?Sized, Pred> DoubleCheckedLockExecutorReadyBuilder<L, T, Pred> {
    /// The lock that the executor will own.
    pub closed spec fn spec_lock(&self) -> L {
        self.lock
    }

    /// The configured predicate.
    pub closed spec fn spec_predicate(&self) -> Pred {
        self.core.spec_predicate()
    }

    /// Whether panic capture was requested.
    pub closed spec fn spec_catch_panics(&self) -> bool {
        self.catch_panics
    }

    /// Sets whether panics should be captured.
    pub fn catch_panics(self, catch_panics: bool) -> (r: Self)
        ensures
            r.spec_lock() == self.spec_lock(),
            r.spec_predicate() == self.spec_predicate(),
            r.spec_catch_panics() == catch_panics,
    {
        DoubleCheckedLockExecutorReadyBuilder {
            lock: self.lock,
            core: self.core,
            catch_panics,
            marker: core::marker::PhantomData,
        }
    }

    /// Builds the executor.
    pub fn build(self) -> (r: DoubleCheckedLockExecutor<L, T, Pred>)
        ensures
            r.spec_lock() == self.spec_lock(),
            r.spec_predicate() == self.spec_predicate(),
            r.spec_catch_panics() == self.spec_catch_panics(),
            r.spec_logger().is_default(),
    {
        DoubleCheckedLockExecutor {
            lock: self.lock,
            core: self.core,
            logger: ExecutionLogger::default(),
            catch_panics: self.catch_panics,
            marker: core::marker::PhantomData,
        }
    }
}

impl<L, T: ?Sized, Pred> DoubleCheckedLockExecutor<L, T, Pred> {
    /// The owned lock.
    pub closed spec fn spec_lock(&self) -> L {
        self.lock
    }

    /// The configured predicate.
    pub closed spec fn spec_predicate(&self) -> Pred {
        self.core.spec_predicate()
    }

    /// Whether panic capture was requested.
    pub closed spec fn spec_catch_panics(&self) -> bool {
        self.catch_panics
    }

    /// The logging configuration.
    pub closed spec fn spec_logger(&self) -> ExecutionLogger {
        self.logger
    }

    /// Assembles an executor from a complete configuration.
    pub(crate) fn assemble(lock: L, core: DclCore<Pred>, logger: ExecutionLogger, catch_panics: bool) -> (r: Self)
        ensures
            r.spec_lock() == lock,
            r.spec_predicate() == core.spec_predicate(),
            r.spec_logger() == logger,
            r.spec_catch_panics() == catch_panics,
    {
        DoubleCheckedLockExecutor { lock, core, logger, catch_panics, marker: core::marker::PhantomData }
    }

    /// Returns the logging configuration.
    pub fn logger(&self) -> (r: &ExecutionLogger)
        ensures
            *r == self.spec_logger(),
    {
        &self.logger
    }

    /// Returns whether panic capture was requested for this executor.
    pub fn catches_panics(&self) -> (r: bool)
        ensures
            r == self.spec_catch_panics(),
    {
        self.catch_panics
    }

    /// Returns the predicate core used for both condition checks.
    pub fn predicate_core(&self) -> (r: &DclCore<Pred>)
        ensures
            r.spec_predicate() == self.spec_predicate(),
    {
        &self.core
    }

    /// Returns the owned lock.
    pub fn lock(&self) -> (r: &L)
        ensures
            *r == self.spec_lock(),
    {
        &self.lock
    }
}

/// The result of a non-blocking run reported as an execution context: a
/// busy or poisoned lock is kept as `Err`, and an outcome is reported as
/// [`ExecutionResult::from_outcome`] reports it.
pub open spec fn context_of<R, E>(
    ran: Result<ExecutionOutcome<R, E>, LockFailure>,
    context: Result<ExecutionContext<R, E>, LockFailure>,
) -> bool {
    match ran {
        Ok(outcome) => context matches Ok(c) && c.spec_result() == ExecutionResult::<R, E>::spec_from_outcome(outcome),
        Err(failure) => context == Err::<ExecutionContext<R, E>, LockFailure>(failure),
    }
}

impl<L, T: ?Sized, Pred: Fn() -> bool> DoubleCheckedLockExecutor<L, T, Pred> {
    /// Runs `task` only when both condition checks succeed, taking the owned
    /// lock without blocking.
    ///
    /// The first check performs no lock operation. When it passes, one
    /// `try_with_write` attempt is made on the owned lock; when the write mode
    /// is taken, the second check and the task run inside it, and the task
    /// runs only when that second check returns `true`. A busy or poisoned
    /// lock is reported as `Err` after the first check passed, and the task
    /// is then not run.
    pub fn try_run<R, E, F>(&self, task: F) -> (r: Result<ExecutionOutcome<R, E>, LockFailure>)
        where
            L: qubit_lock::DataLock<T>,
            F: FnOnce() -> Result<R, E>,
        requires
            self.spec_predicate().requires(()),
            task.requires(()),
        ensures
            match r {
                Ok(outcome) => outcome_possible(self.spec_predicate(), task, outcome),
                Err(_) => self.spec_predicate().ensures((), true),
            },
            gate_explains(self.spec_predicate(), task, r),
    {
        if !self.core.check_initial() {
            assert(crate::gate::gate_driven(false, Ok::<(), LockFailure>(()), false,
                vstd::pervasive::arbitrary::<Result<R, E>>()) == (crate::gate::GateState::Finished::<R, E> {
                result: Ok(ExecutionOutcome::ConditionNotMet),
            }));
            return Ok(ExecutionOutcome::ConditionNotMet);
        }
        let ghost predicate = self.spec_predicate();
        let ghost task_spec = task;
        let dcl_core = &self.core;
        let phase = move || -> (locked: crate::execution::LockedExecution<R, E>)
            requires
                predicate.requires(()),
                task_spec.requires(()),
                predicate == dcl_core.spec_predicate(),
                task_spec == task,
            ensures
                crate::dcl::locked_result_possible(predicate, task_spec, locked),
            { dcl_core.check_then_run(task) };
        let attempt = try_run_holding_write_lock_of(&self.lock, phase);
        let ghost attempt_copy = attempt;
        let r = gate_after_attempt(attempt);
        proof {
            match attempt_copy {
                Err(failure) => {
                    assert(crate::gate::gate_driven(true, Err::<(), LockFailure>(failure), false,
                        vstd::pervasive::arbitrary::<Result<R, E>>()) == (crate::gate::GateState::Finished::<R, E> {
                        result: r,
                    }));
                },
                Ok(crate::execution::LockedExecution::ConditionNotMet) => {
                    assert(crate::gate::gate_driven(true, Ok::<(), LockFailure>(()), false,
                        vstd::pervasive::arbitrary::<Result<R, E>>()) == (crate::gate::GateState::Finished::<R, E> {
                        result: r,
                    }));
                },
                Ok(crate::execution::LockedExecution::Task(returned)) => {
                    assert(task.ensures((), returned));
                    assert(crate::gate::gate_driven(true, Ok::<(), LockFailure>(()), true, returned)
                        == (crate::gate::GateState::Finished::<R, E> { result: r }));
                },
            }
        }
        r
    }

    /// Runs `task` like [`Self::try_run`] and reports an outcome as an
    /// [`ExecutionContext`]: a task error becomes `ExecutorError::TaskFailed`.
    pub fn try_call<R, E, F>(&self, task: F) -> (r: Result<ExecutionContext<R, E>, LockFailure>)
        where
            L: qubit_lock::DataLock<T>,
            F: FnOnce() -> Result<R, E>,
        requires
            self.spec_predicate().requires(()),
            task.requires(()),
        ensures
            exists|ran: Result<ExecutionOutcome<R, E>, LockFailure>| #[trigger] context_of(ran, r)
                && gate_explains(self.spec_predicate(), task, ran) && match ran {
                Ok(outcome) => outcome_possible(self.spec_predicate(), task, outcome),
                Err(_) => self.spec_predicate().ensures((), true),
            },
    {
        let ran = self.try_run(task);
        let r = match ran {
            Ok(outcome) => Ok(ExecutionContext::new(ExecutionResult::from_outcome(outcome))),
            Err(failure) => Err(failure),
        };
        assert(context_of(ran, r));
        r
    }

    /// Runs a task without return value like [`Self::try_call`].
    pub fn try_execute<E, F>(&self, task: F) -> (r: Result<ExecutionContext<(), E>, LockFailure>)
        where
            L: qubit_lock::DataLock<T>,
            F: FnOnce() -> Result<(), E>,
        requires
            self.spec_predicate().requires(()),
            task.requires(()),
        ensures
            exists|ran: Result<ExecutionOutcome<(), E>, LockFailure>| #[trigger] context_of(ran, r)
                && gate_explains(self.spec_predicate(), task, ran) && match ran {
                Ok(outcome) => outcome_possible(self.spec_predicate(), task, outcome),
                Err(_) => self.spec_predicate().ensures((), true),
            },
    {
        self.try_call(task)
    }
}

impl<L, T, Pred: Fn() -> bool> DoubleCheckedLockExecutor<L, T, Pred> {
    /// Runs `task` with mutable access to the protected data when both
    /// condition checks succeed, taking the owned lock without blocking. The
    /// first check takes no lock; the second check and the task run inside
    /// one `try_with_write` on the owned lock. A busy or poisoned lock is
    /// reported as `Err` after the first check passed.
    pub fn try_run_with_data<R, E, F>(&self, task: F) -> (r: Result<ExecutionOutcome<R, E>, LockFailure>)
        where
            L: qubit_lock::DataLock<T>,
            F: FnOnce(&mut T) -> Result<R, E>,
        requires
            self.spec_predicate().requires(()),
            forall|data: &mut T| task.requires((data,)),
        ensures
            match r {
                Ok(outcome) => data_outcome_possible(self.spec_predicate(), task, outcome),
                Err(_) => self.spec_predicate().ensures((), true),
            },
            gate_explains_data::<Pred, T, R, E, F>(self.spec_predicate(), task, r),
    {
        if !self.core.check_initial() {
            assert(crate::gate::gate_driven(false, Ok::<(), LockFailure>(()), false,
                vstd::pervasive::arbitrary::<Result<R, E>>()) == (crate::gate::GateState::Finished::<R, E> {
                result: Ok(ExecutionOutcome::ConditionNotMet),
            }));
            return Ok(ExecutionOutcome::ConditionNotMet);
        }
        let ghost predicate = self.spec_predicate();
        let ghost task_spec = task;
        let dcl_core = &self.core;
        let phase = move |data: &mut T| -> (locked: crate::execution::LockedExecution<R, E>)
            requires
                predicate.requires(()),
                forall|d: &mut T| task_spec.requires((d,)),
                predicate == dcl_core.spec_predicate(),
                task_spec == task,
            ensures
                match locked {
                    crate::execution::LockedExecution::ConditionNotMet => predicate.ensures((), false),
                    crate::execution::LockedExecution::Task(result) => predicate.ensures((), true)
                        && exists|d: &mut T| #[trigger] task_spec.ensures((d,), result),
                },
            { dcl_core.check_then_run_with_data(task, data) };
        let attempt = try_run_with_write_data_of(&self.lock, phase);
        let ghost attempt_copy = attempt;
        let r = gate_after_attempt(attempt);
        proof {
            match attempt_copy {
                Err(failure) => {
                    assert(crate::gate::gate_driven(true, Err::<(), LockFailure>(failure), false,
                        vstd::pervasive::arbitrary::<Result<R, E>>()) == (crate::gate::GateState::Finished::<R, E> {
                        result: r,
                    }));
                },
                Ok(locked) => {
                    let d = choose|d: &mut T| #[trigger] phase.ensures((d,), locked);
                    assert(phase.ensures((d,), locked));
                    match locked {
                        crate::execution::LockedExecution::ConditionNotMet => {
                            assert(self.spec_predicate().ensures((), false));
                            assert(r == Ok::<ExecutionOutcome<R, E>, LockFailure>(ExecutionOutcome::ConditionNotMet));
                            assert(crate::gate::gate_driven(true, Ok::<(), LockFailure>(()), false,
                                vstd::pervasive::arbitrary::<Result<R, E>>())
                                == (crate::gate::GateState::Finished::<R, E> { result: r }));
                        },
                        crate::execution::LockedExecution::Task(returned) => {
                            assert(self.spec_predicate().ensures((), true));
                            let d2 = choose|d2: &mut T| #[trigger] task_spec.ensures((d2,), returned);
                            assert(task.ensures((d2,), returned));
                            assert(crate::gate::gate_driven(true, Ok::<(), LockFailure>(()), true, returned)
                                == (crate::gate::GateState::Finished::<R, E> { result: r }));
                            let outcome = locked.spec_into_outcome();
                            if outcome is Success {
                                let v = outcome->Success_0;
                                assert(returned == Ok::<R, E>(v));
                                let d3 = choose|d3: &mut T| #[trigger] task_spec.ensures((d3,), Ok::<R, E>(v));
                                assert(task.ensures((d3,), Ok::<R, E>(v)));
                            } else {
                                let er = outcome->TaskFailed_0;
                                assert(returned == Err::<R, E>(er));
                                let d3 = choose|d3: &mut T| #[trigger] task_spec.ensures((d3,), Err::<R, E>(er));
                                assert(task.ensures((d3,), Err::<R, E>(er)));
                            }
                        },
                    }
                },
            }
        }
        r
    }

    /// Runs a data-accessing task like [`Self::try_run_with_data`] and
    /// reports an outcome as an [`ExecutionContext`].
    pub fn try_call_with<R, E, F>(&self, task: F) -> (r: Result<ExecutionContext<R, E>, LockFailure>)
        where
            L: qubit_lock::DataLock<T>,
            F: FnOnce(&mut T) -> Result<R, E>,
        requires
            self.spec_predicate().requires(()),
            forall|data: &mut T| task.requires((data,)),
        ensures
            exists|ran: Result<ExecutionOutcome<R, E>, LockFailure>| #[trigger] context_of(ran, r)
                && gate_explains_data::<Pred, T, R, E, F>(self.spec_predicate(), task, ran) && match ran {
                Ok(outcome) => data_outcome_possible(self.spec_predicate(), task, outcome),
                Err(_) => self.spec_predicate().ensures((), true),
            },
    {
        let ran = self.try_run_with_data(task);
        let r = match ran {
            Ok(outcome) => Ok(ExecutionContext::new(ExecutionResult::from_outcome(outcome))),
            Err(failure) => Err(failure),
        };
        assert(context_of(ran, r));
        r
    }

    /// Runs a data-accessing task without return value like
    /// [`Self::try_call_with`].
    pub fn try_execute_with<E, F>(&self, task: F) -> (r: Result<ExecutionContext<(), E>, LockFailure>)
        where
            L: qubit_lock::DataLock<T>,
            F: FnOnce(&mut T) -> Result<(), E>,
        requires
            self.spec_predicate().requires(()),
            forall|data: &mut T| task.requires((data,)),
        ensures
            exists|ran: Result<ExecutionOutcome<(), E>, LockFailure>| #[trigger] context_of(ran, r)
                && gate_explains_data::<Pred, T, (), E, F>(self.spec_predicate(), task, ran) && match ran {
                Ok(outcome) => data_outcome_possible(self.spec_predicate(), task, outcome),
                Err(_) => self.spec_predicate().ensures((), true),
            },
    {
        self.try_call_with(task)
    }
}

impl<L: Clone, T: ?Sized, Pred> Clone for DoubleCheckedLockExecutor<L, T, Pred> {
    /// Clones the lock handle and shares the predicate; the logging and
    /// panic-capture settings are copied.
    fn clone(&self) -> (r: Self)
        ensures
            vstd::pervasive::cloned(self.spec_lock(), r.spec_lock()),
            r.spec_predicate() == self.spec_predicate(),
            r.spec_logger() == self.spec_logger(),
            r.spec_catch_panics() == self.spec_catch_panics(),
    {
        DoubleCheckedLockExecutor {
            lock: self.lock.clone(),
            core: self.core.clone(),
            logger: self.logger.clone(),
            catch_panics: self.catch_panics,
            marker: core::marker::PhantomData,
        }
    }
}

/// Setting panic capture twice on a ready builder keeps only the last
/// setting, and neither call changes the lock or the predicate.
pub proof fn law_ready_builder_last_capture_wins<L, T: ?Sized, Pred>(
    start: DoubleCheckedLockExecutorReadyBuilder<L, T, Pred>,
    middle: DoubleCheckedLockExecutorReadyBuilder<L, T, Pred>,
    end: DoubleCheckedLockExecutorReadyBuilder<L, T, Pred>,
    first: bool,
    last: bool,
)
    requires
        middle.spec_lock() == start.spec_lock(),
        middle.spec_predicate() == start.spec_predicate(),
        middle.spec_catch_panics() == first,
        end.spec_lock() == middle.spec_lock(),
        end.spec_predicate() == middle.spec_predicate(),
        end.spec_catch_panics() == last,
    ensures
        end.spec_lock() == start.spec_lock(),
        end.spec_predicate() == start.spec_predicate(),
        end.spec_catch_panics() == last,
{
}

} // verus!
