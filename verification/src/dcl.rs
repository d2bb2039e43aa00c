//! The double-checked locking core and the basic executors built on it.

use vstd::prelude::*;

use crate::execution::LockedExecution;
use crate::gate::{GateRun, GateState, gate_driven};
use crate::outcome::ExecutionOutcome;

verus! {

/// Why a non-blocking acquisition did not take the lock.
#[derive(Debug, Clone, Copy, PartialEq, Eq, Structural)]
pub enum LockFailure {
    /// Another guard held the lock, so taking it would have blocked.
    WouldBlock,
    /// The lock is a standard-library lock poisoned by an earlier panic.
    Poisoned,
}

/// Attempts to take `lock` once through `qubit_lock::Lock::try_lock`; when
/// it is taken, runs `locked_phase` while the guard is held, drops the guard
/// and returns what the phase returned.
///
/// Trusted: `try_lock` never blocks; it returns a guard, `WouldBlock` or
/// `Poisoned` (for standard-library locks it maps the poisoned state to a
/// value instead of panicking). The claim is that an `Ok` result is the
/// phase's own result; on `Err` the phase was not run. Which of the three
/// answers comes back depends on the lock's state and other threads, and is
/// not stated.
#[verifier::external_body]
fn try_run_holding_lock<L, T, F>(lock: &L, locked_phase: F) -> (r: Result<T, LockFailure>)
    where
        L: qubit_lock::Lock + ?Sized,
        F: FnOnce() -> T,
    requires
        locked_phase.requires(()),
    ensures
        r matches Ok(v) ==> locked_phase.ensures((), v),
{
    match lock.try_lock() {
        Ok(_guard) => Ok(locked_phase()),
        Err(qubit_lock::TryLockError::WouldBlock) => Err(LockFailure::WouldBlock),
        Err(qubit_lock::TryLockError::Poisoned) => Err(LockFailure::Poisoned),
    }
}

/// Attempts the write mode of `lock` once through
/// `qubit_lock::DataLock::try_with_write`; when it is taken, runs
/// `locked_phase` while the guard is held. The protected data is not handed
/// to the phase.
///
/// Trusted: `try_with_write` never blocks; it calls the closure exactly once
/// when the write mode was taken and returns its result as `Ok`, and returns
/// `WouldBlock` or `Poisoned` without calling it otherwise. Which answer comes
/// back depends on the lock's state and other threads, and is not stated.
#[verifier::external_body]
pub(crate) fn try_run_holding_write_lock_of<L, D, T, F>(lock: &L, locked_phase: F) -> (r: Result<T, LockFailure>)
    where
        L: qubit_lock::DataLock<D>,
        D: ?Sized,
        F: FnOnce() -> T,
    requires
        locked_phase.requires(()),
    ensures
        r matches Ok(v) ==> locked_phase.ensures((), v),
{
    match lock.try_with_write(|_data| locked_phase()) {
        Ok(v) => Ok(v),
        Err(qubit_lock::TryLockError::WouldBlock) => Err(LockFailure::WouldBlock),
        Err(qubit_lock::TryLockError::Poisoned) => Err(LockFailure::Poisoned),
    }
}

/// Attempts the write mode of `lock` once through
/// `qubit_lock::DataLock::try_with_write`, handing the protected data to
/// `locked_phase` when it is taken.
///
/// Trusted: `try_with_write` never blocks; when the write mode was taken it
/// calls the closure exactly once with a mutable reference to the protected
/// data and returns its result as `Ok`; otherwise it returns `WouldBlock` or
/// `Poisoned` without calling it. The state of the data is not visible here;
/// which answer comes back depends on the lock's state and other threads.
#[verifier::external_body]
pub(crate) fn try_run_with_write_data_of<L, D, T, F>(lock: &L, locked_phase: F) -> (r: Result<T, LockFailure>)
    where
        L: qubit_lock::DataLock<D>,
        F: FnOnce(&mut D) -> T,
    requires
        forall|data: &mut D| locked_phase.requires((data,)),
    ensures
        r matches Ok(v) ==> exists|data: &mut D| #[trigger] locked_phase.ensures((data,), v),
{
    match lock.try_with_write(|data| locked_phase(data)) {
        Ok(v) => Ok(v),
        Err(qubit_lock::TryLockError::WouldBlock) => Err(LockFailure::WouldBlock),
        Err(qubit_lock::TryLockError::Poisoned) => Err(LockFailure::Poisoned),
    }
}

/// Makes another handle to the value behind `shared` through
/// `std::sync::Arc::clone`.
///
/// Trusted: the documentation of `Arc::clone` says that it creates another
/// pointer to the same allocation, so both handles show the same value.
#[verifier::external_body]
pub(crate) fn share<T>(shared: &std::sync::Arc<T>) -> (r: std::sync::Arc<T>)
    ensures
        *r == **shared,
{
    std::sync::Arc::clone(shared)
}

/// Owns the predicate shared by the executors: it is evaluated once without
/// the lock and once more while the lock is held. Clones share the same
/// predicate.
pub struct DclCore<Pred> {
    /// Lock-free predicate invoked before and after lock acquisition.
    predicate: std::sync::Arc<Pred>,
}

impl<Pred> DclCore<Pred> {
    /// The configured predicate.
    pub closed spec fn spec_predicate(&self) -> Pred {
        *self.predicate
    }

    /// Creates a core around `predicate`.
    pub fn new(predicate: Pred) -> (r: Self)
        ensures
            r.spec_predicate() == predicate,
    {
        DclCore { predicate: std::sync::Arc::new(predicate) }
    }
}

impl<Pred> Clone for DclCore<Pred> {
    /// Shares the predicate with the clone.
    fn clone(&self) -> (r: Self)
        ensures
            r.spec_predicate() == self.spec_predicate(),
    {
        DclCore { predicate: share(&self.predicate) }
    }
}

/// The locked-phase result that a predicate and a task can produce: the
/// second check returned `false`, or it returned `true` and the task returned
/// the given result.
pub open spec fn locked_result_possible<Pred, R, E, F>(
    predicate: Pred,
    task: F,
    locked: LockedExecution<R, E>,
) -> bool
    where
        Pred: Fn() -> bool,
        F: FnOnce() -> Result<R, E>,
{
    match locked {
        LockedExecution::ConditionNotMet => predicate.ensures((), false),
        LockedExecution::Task(result) => predicate.ensures((), true) && task.ensures((), result),
    }
}

/// The execution outcome that a predicate and a task can produce: a failed
/// check, or two passed checks followed by the task's own value or error.
pub open spec fn outcome_possible<Pred, R, E, F>(
    predicate: Pred,
    task: F,
    outcome: ExecutionOutcome<R, E>,
) -> bool
    where
        Pred: Fn() -> bool,
        F: FnOnce() -> Result<R, E>,
{
    match outcome {
        ExecutionOutcome::ConditionNotMet => predicate.ensures((), false),
        ExecutionOutcome::Success(value) => predicate.ensures((), true) && task.ensures((), Ok(value)),
        ExecutionOutcome::TaskFailed(error) => predicate.ensures((), true) && task.ensures((), Err(error)),
    }
}

/// The execution outcome that a predicate and a data-accessing task can
/// produce: a failed check, or two passed checks followed by the task's
/// value or error for some state of the protected data.
pub open spec fn data_outcome_possible<Pred, D, R, E, F>(
    predicate: Pred,
    task: F,
    outcome: ExecutionOutcome<R, E>,
) -> bool
    where
        Pred: Fn() -> bool,
        F: FnOnce(&mut D) -> Result<R, E>,
{
    match outcome {
        ExecutionOutcome::ConditionNotMet => predicate.ensures((), false),
        ExecutionOutcome::Success(value) => predicate.ensures((), true) && exists|data: &mut D|
            #[trigger] task.ensures((data,), Ok(value)),
        ExecutionOutcome::TaskFailed(error) => predicate.ensures((), true) && exists|data: &mut D|
            #[trigger] task.ensures((data,), Err(error)),
    }
}

/// The run's result is one the double-checked protocol reaches from reports
/// the predicate and the task can give: a lock-free check result, a lock
/// report, a check result under the lock and a task result, each consulted
/// only when the protocol asks for it.
pub open spec fn gate_explains<Pred, R, E, F>(
    predicate: Pred,
    task: F,
    result: Result<ExecutionOutcome<R, E>, LockFailure>,
) -> bool
    where
        Pred: Fn() -> bool,
        F: FnOnce() -> Result<R, E>,
{
    exists|first: bool, acquired: Result<(), LockFailure>, second: bool, returned: Result<R, E>|
        #[trigger] gate_driven(first, acquired, second, returned) == (GateState::Finished::<R, E> { result })
            && predicate.ensures((), first)
            && (first && acquired is Ok ==> predicate.ensures((), second))
            && (first && acquired is Ok && second ==> task.ensures((), returned))
}

/// Like [`gate_explains`] for a task on protected data: the task result
/// is one the task can return for some state of the data.
pub open spec fn gate_explains_data<Pred, D: ?Sized, R, E, F>(
    predicate: Pred,
    task: F,
    result: Result<ExecutionOutcome<R, E>, LockFailure>,
) -> bool
    where
        Pred: Fn() -> bool,
        F: FnOnce(&mut D) -> Result<R, E>,
{
    exists|first: bool, acquired: Result<(), LockFailure>, second: bool, returned: Result<R, E>|
        #[trigger] gate_driven(first, acquired, second, returned) == (GateState::Finished::<R, E> { result })
            && predicate.ensures((), first)
            && (first && acquired is Ok ==> predicate.ensures((), second))
            && (first && acquired is Ok && second ==> exists|data: &mut D| #[trigger] task.ensures((data,), returned))
}

/// Drives the double-checked protocol from one attempt at the locked phase,
/// made after the lock-free check passed: a lock failure, a failed second
/// check, or the task's result.
pub(crate) fn gate_after_attempt<R, E>(attempt: Result<LockedExecution<R, E>, LockFailure>) -> (r: Result<
    ExecutionOutcome<R, E>,
    LockFailure,
>)
    ensures
        match attempt {
            Err(failure) => gate_driven(true, Err::<(), LockFailure>(failure), false, vstd::pervasive::arbitrary::<Result<R, E>>())
                == (GateState::Finished::<R, E> { result: r }),
            Ok(LockedExecution::ConditionNotMet) => gate_driven(true, Ok::<(), LockFailure>(()), false,
                vstd::pervasive::arbitrary::<Result<R, E>>()) == (GateState::Finished::<R, E> { result: r }),
            Ok(LockedExecution::Task(returned)) => gate_driven(true, Ok::<(), LockFailure>(()), true, returned)
                == (GateState::Finished::<R, E> { result: r }),
        },
        match attempt {
            Err(failure) => r == Err::<ExecutionOutcome<R, E>, LockFailure>(failure),
            Ok(locked) => r == Ok::<ExecutionOutcome<R, E>, LockFailure>(locked.spec_into_outcome()),
        },
{
    let run = GateRun::<R, E>::new().on_initial_check(true);
    let run = match attempt {
        Err(failure) => run.on_lock(Err(failure)),
        Ok(LockedExecution::ConditionNotMet) => run.on_lock(Ok(())).on_second_check(false),
        Ok(LockedExecution::Task(returned)) => run.on_lock(Ok(())).on_second_check(true).on_task(returned),
    };
    run.into_result()
}

impl<Pred: Fn() -> bool> DclCore<Pred> {
    /// Performs the lock-free condition check.
    pub fn check_initial(&self) -> (r: bool)
        requires
            self.spec_predicate().requires(()),
        ensures
            self.spec_predicate().ensures((), r),
    {
        (*self.predicate)()
    }

    /// The work done while the lock is held: check the condition again and,
    /// only when it still holds, run the task.
    pub fn check_then_run<R, E, F>(&self, task: F) -> (r: LockedExecution<R, E>)
        where
            F: FnOnce() -> Result<R, E>,
        requires
            self.spec_predicate().requires(()),
            task.requires(()),
        ensures
            locked_result_possible(self.spec_predicate(), task, r),
    {
        if !(*self.predicate)() {
            LockedExecution::ConditionNotMet
        } else {
            LockedExecution::Task(task())
        }
    }

    /// The locked work with a notification: checks the condition again and,
    /// only when it still holds, calls `before_task` and then runs the task.
    /// Runners that classify panics use the notification to tell a panic of
    /// the second check from one of the task.
    pub fn check_then_run_reporting<R, E, F, G>(&self, task: F, before_task: G) -> (r: LockedExecution<R, E>)
        where
            F: FnOnce() -> Result<R, E>,
            G: FnOnce(),
        requires
            self.spec_predicate().requires(()),
            task.requires(()),
            before_task.requires(()),
        ensures
            locked_result_possible(self.spec_predicate(), task, r),
            r is Task ==> before_task.ensures((), ()),
    {
        if !(*self.predicate)() {
            LockedExecution::ConditionNotMet
        } else {
            before_task();
            LockedExecution::Task(task())
        }
    }

    /// The locked work on protected data: checks the condition again and,
    /// only when it still holds, runs the task on `data`.
    pub fn check_then_run_with_data<D: ?Sized, R, E, F>(&self, task: F, data: &mut D) -> (r: LockedExecution<R, E>)
        where
            F: FnOnce(&mut D) -> Result<R, E>,
        requires
            self.spec_predicate().requires(()),
            forall|d: &mut D| task.requires((d,)),
        ensures
            match r {
                LockedExecution::ConditionNotMet => self.spec_predicate().ensures((), false),
                LockedExecution::Task(result) => self.spec_predicate().ensures((), true)
                    && exists|d: &mut D| #[trigger] task.ensures((d,), result),
            },
    {
        if !(*self.predicate)() {
            LockedExecution::ConditionNotMet
        } else {
            LockedExecution::Task(task(data))
        }
    }

    /// Takes `lock` once without blocking, checks the condition again and
    /// runs the task only when it still holds; the guard is released before
    /// returning. A busy or poisoned lock is reported as `Err` and the task is
    /// not run.
    pub fn try_execute_locked<L, R, E, F>(&self, lock: &L, task: F) -> (r: Result<LockedExecution<R, E>, LockFailure>)
        where
            L: qubit_lock::Lock + ?Sized,
            F: FnOnce() -> Result<R, E>,
        requires
            self.spec_predicate().requires(()),
            task.requires(()),
        ensures
            r matches Ok(locked) ==> locked_result_possible(self.spec_predicate(), task, locked),
    {
        let ghost predicate = self.spec_predicate();
        let ghost task_spec = task;
        let phase = move || -> (locked: LockedExecution<R, E>)
            requires
                predicate.requires(()),
                task_spec.requires(()),
                predicate == self.spec_predicate(),
                task_spec == task,
            ensures
                locked_result_possible(predicate, task_spec, locked),
            { self.check_then_run(task) };
        try_run_holding_lock(lock, phase)
    }

    /// Runs the double-checked sequence without blocking: the lock-free
    /// check, then one attempt to take `lock` for the second check and the
    /// task. The lock is attempted only when the first check passed; a busy
    /// or poisoned lock is reported as `Err` after that first check passed,
    /// and the task is then not run. The result follows the double-checked
    /// protocol of [`crate::gate`].
    pub fn try_run<L, R, E, F>(&self, lock: &L, task: F) -> (r: Result<ExecutionOutcome<R, E>, LockFailure>)
        where
            L: qubit_lock::Lock + ?Sized,
            F: FnOnce() -> Result<R, E>,
        requires
            self.spec_predicate().requires(()),
            task.requires(()),
        ensures
            match r {
                Ok(outcome) => outcome_possible(self.spec_predicate(), task, outcome),
                Err(_) => self.spec_predicate().ensures((), true),
            },
            gate_explains(self.spec_predicate(), task, r),
    {
        let run = GateRun::<R, E>::new();
        let first = self.check_initial();
        let run = run.on_initial_check(first);
        if !first {
            let r = run.into_result();
            assert(gate_driven(first, Ok::<(), LockFailure>(()), false, vstd::pervasive::arbitrary::<Result<R, E>>())
                == (GateState::Finished::<R, E> { result: r }));
            return r;
        }
        let ghost task_spec = task;
        let run = match self.try_execute_locked(lock, task) {
            Err(failure) => {
                let run = run.on_lock(Err(failure));
                assert(gate_driven(first, Err::<(), LockFailure>(failure), false, vstd::pervasive::arbitrary::<Result<R, E>>())
                    == run.spec_state());
                run
            },
            Ok(LockedExecution::ConditionNotMet) => {
                let run = run.on_lock(Ok(())).on_second_check(false);
                assert(gate_driven(first, Ok::<(), LockFailure>(()), false, vstd::pervasive::arbitrary::<Result<R, E>>())
                    == run.spec_state());
                run
            },
            Ok(LockedExecution::Task(returned)) => {
                let ghost returned_copy = returned;
                let run = run.on_lock(Ok(())).on_second_check(true).on_task(returned);
                assert(gate_driven(first, Ok::<(), LockFailure>(()), true, returned_copy) == run.spec_state());
                assert(task_spec.ensures((), returned_copy));
                run
            },
        };
        run.into_result()
    }

    /// Runs the whole double-checked sequence with a caller-supplied
    /// acquisition: the lock-free check, then `acquire` (which blocks until
    /// it returns a guard), then the second check and the task while that
    /// guard is held. `acquire` is called only when the first check passed,
    /// and the task runs only when both checks passed; the guard is dropped
    /// before returning. The run follows the double-checked protocol of
    /// [`crate::gate`].
    pub fn run_acquiring<G, A, R, E, F>(&self, acquire: A, task: F) -> (r: ExecutionOutcome<R, E>)
        where
            A: FnOnce() -> G,
            F: FnOnce() -> Result<R, E>,
        requires
            self.spec_predicate().requires(()),
            acquire.requires(()),
            task.requires(()),
        ensures
            outcome_possible(self.spec_predicate(), task, r),
            !(r is ConditionNotMet) ==> exists|guard: G| #[trigger] acquire.ensures((), guard),
            gate_explains(self.spec_predicate(), task, Ok::<ExecutionOutcome<R, E>, LockFailure>(r)),
    {
        let run = GateRun::<R, E>::new();
        let first = self.check_initial();
        let run = run.on_initial_check(first);
        if !first {
            let r = run.into_result();
            assert(gate_driven(first, Ok::<(), LockFailure>(()), false, vstd::pervasive::arbitrary::<Result<R, E>>())
                == (GateState::Finished::<R, E> { result: r }));
            return ExecutionOutcome::ConditionNotMet;
        }
        let ghost task_spec = task;
        let ghost mut second_g: bool = false;
        let ghost mut returned_g: Result<R, E> = vstd::pervasive::arbitrary();
        let ghost mut guard_g: G;
        let run = {
            let guard = acquire();
            proof {
                guard_g = guard;
            }
            let run = run.on_lock(Ok(()));
            let second = (*self.predicate)();
            proof {
                second_g = second;
            }
            let run = run.on_second_check(second);
            if second {
                let returned = task();
                proof {
                    returned_g = returned;
                }
                run.on_task(returned)
            } else {
                run
            }
        };
        assert(acquire.ensures((), guard_g));
        assert(gate_driven(first, Ok::<(), LockFailure>(()), second_g, returned_g) == run.spec_state());
        match run.into_result() {
            Ok(outcome) => outcome,
            Err(_) => vstd::pervasive::unreached(),
        }
    }
}

/// The locked phase and the whole run agree: whatever the locked phase can
/// report, its conversion is an outcome the run can report, so a task value
/// or error only appears after both checks passed and an unmet condition only
/// after a check failed.
pub proof fn law_locked_result_gives_possible_outcome<Pred, R, E, F>(
    predicate: Pred,
    task: F,
    locked: LockedExecution<R, E>,
)
    where
        Pred: Fn() -> bool,
        F: FnOnce() -> Result<R, E>,
    requires
        locked_result_possible(predicate, task, locked),
    ensures
        outcome_possible(predicate, task, locked.spec_into_outcome()),
{
}

} // verus!
