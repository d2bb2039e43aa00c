use std::cell::Cell;
use std::io;
use std::sync::atomic::{AtomicBool, AtomicUsize, Ordering};
use std::sync::{Arc, Mutex};

use qubit_dcl::{
    DclExecutor, DoubleCheckedLock, DoubleCheckedLockExecutor, ExecutionOutcome, ExecutionResult,
    ExecutorError, GateAction, GateRun, LockFailure, LockedExecution,
};

#[test]
fn dcl_executor_runs_task_when_both_checks_pass() {
    let lock = Mutex::new(());
    let executor = DclExecutor::builder().when(|| true).build();
    let outcome = executor.try_run(&lock, || Ok::<usize, io::Error>(42)).unwrap();
    assert!(matches!(outcome, ExecutionOutcome::Success(42)));
}

#[test]
fn dcl_executor_skips_task_when_initial_check_fails() {
    let lock = Mutex::new(());
    let ran = Cell::new(false);
    let executor = DclExecutor::new(|| false);
    let outcome = executor
        .try_run(&lock, || {
            ran.set(true);
            Ok::<(), io::Error>(())
        })
        .unwrap();
    assert!(matches!(outcome, ExecutionOutcome::ConditionNotMet));
    assert!(!ran.get());
}

#[test]
fn dcl_executor_skips_task_when_second_check_fails() {
    let lock = Mutex::new(());
    let calls = Arc::new(AtomicUsize::new(0));
    let ran = Cell::new(false);
    let executor = DclExecutor::new({
        let calls = Arc::clone(&calls);
        move || calls.fetch_add(1, Ordering::SeqCst) == 0
    });
    let outcome = executor
        .try_run(&lock, || {
            ran.set(true);
            Ok::<(), io::Error>(())
        })
        .unwrap();
    assert!(matches!(outcome, ExecutionOutcome::ConditionNotMet));
    assert_eq!(calls.load(Ordering::SeqCst), 2);
    assert!(!ran.get());
}

#[test]
fn dcl_executor_preserves_task_error() {
    let lock = Mutex::new(());
    let executor = DclExecutor::new(|| true);
    let outcome = executor.run_acquiring(|| lock.lock().unwrap(), || Err::<(), &str>("denied"));
    assert!(matches!(outcome, ExecutionOutcome::TaskFailed("denied")));
}

#[test]
fn dcl_executor_checks_the_gate_twice_and_runs_once() {
    let gate = Arc::new(AtomicBool::new(true));
    let loads = Arc::new(AtomicUsize::new(0));
    let lock = Mutex::new(());
    let executor = DclExecutor::builder()
        .when({
            let gate = Arc::clone(&gate);
            move || gate.load(Ordering::Acquire)
        })
        .build();
    let first = executor.run_acquiring(
        || lock.lock().unwrap(),
        || {
            loads.fetch_add(1, Ordering::Relaxed);
            gate.store(false, Ordering::Release);
            Ok::<(), io::Error>(())
        },
    );
    let second = executor.run_acquiring(
        || lock.lock().unwrap(),
        || {
            loads.fetch_add(1, Ordering::Relaxed);
            Ok::<(), io::Error>(())
        },
    );
    assert!(matches!(first, ExecutionOutcome::Success(())));
    assert!(matches!(second, ExecutionOutcome::ConditionNotMet));
    assert_eq!(loads.load(Ordering::Relaxed), 1);
}

#[test]
fn execution_outcome_into_result_maps_each_variant() {
    assert_eq!(ExecutionOutcome::<i32, &str>::Success(3).into_result(), Ok(Some(3)));
    assert_eq!(ExecutionOutcome::<i32, &str>::ConditionNotMet.into_result(), Ok(None));
    assert_eq!(ExecutionOutcome::<i32, &str>::TaskFailed("bad").into_result(), Err("bad"));
}

#[test]
fn locked_execution_into_outcome_maps_each_variant() {
    assert!(matches!(
        LockedExecution::<i32, &str>::ConditionNotMet.into_outcome(),
        ExecutionOutcome::ConditionNotMet
    ));
    assert!(matches!(LockedExecution::<i32, &str>::Task(Ok(1)).into_outcome(), ExecutionOutcome::Success(1)));
    assert!(matches!(
        LockedExecution::<i32, &str>::Task(Err("x")).into_outcome(),
        ExecutionOutcome::TaskFailed("x")
    ));
}

#[test]
fn double_checked_lock_executor_runs_inside_write_lock() {
    let lock = Mutex::new(7);
    let executor = DoubleCheckedLockExecutor::builder(lock).when(|| true).build();
    let outcome = executor.try_run(|| Ok::<u8, io::Error>(1)).unwrap();
    assert!(matches!(outcome, ExecutionOutcome::Success(1)));
    assert!(!executor.catches_panics());
    assert_eq!(*executor.lock().lock().unwrap(), 7);
}

#[test]
fn double_checked_lock_executor_records_panic_capture_setting() {
    let executor = DoubleCheckedLockExecutor::builder(Mutex::new(0)).when(|| true).catch_panics(true).build();
    assert!(executor.catches_panics());
}

#[test]
fn double_checked_lock_executor_gives_task_the_data() {
    let executor = DoubleCheckedLockExecutor::builder(Mutex::new(10)).when(|| true).build();
    let outcome = executor
        .try_run_with_data(|value: &mut i32| {
            *value += 5;
            Ok::<i32, io::Error>(*value)
        })
        .unwrap();
    assert!(matches!(outcome, ExecutionOutcome::Success(15)));
    assert_eq!(*executor.lock().lock().unwrap(), 15);
}

#[test]
fn double_checked_lock_executor_leaves_data_when_condition_fails() {
    let executor = DoubleCheckedLockExecutor::builder(Mutex::new(10)).when(|| false).build();
    let context = executor
        .try_call_with(|value: &mut i32| {
            *value += 5;
            Ok::<i32, io::Error>(*value)
        })
        .unwrap();
    assert!(context.peek_result().is_unmet());
    assert_eq!(*executor.lock().lock().unwrap(), 10);
}

#[test]
fn double_checked_lock_one_shot_call_with_updates_data() {
    let data = Arc::new(Mutex::new(10));
    let skip = Arc::new(AtomicBool::new(false));
    let result = DoubleCheckedLock::on(Arc::clone(&data))
        .when({
            let skip = Arc::clone(&skip);
            move || !skip.load(Ordering::Acquire)
        })
        .try_call_with(|value: &mut i32| {
            *value += 5;
            Ok::<i32, io::Error>(*value)
        })
        .unwrap()
        .get_result();
    assert!(result.is_success());
    assert_eq!(*data.lock().unwrap(), 15);
}

#[test]
fn double_checked_lock_call_reports_task_failure() {
    let context = DoubleCheckedLock::on(Mutex::new(0)).when(|| true).try_call(|| Err::<i32, String>("no".to_string())).unwrap();
    assert!(context.peek_result().is_failed());
    match context.get_result() {
        ExecutionResult::Failed(ExecutorError::TaskFailed(message)) => assert_eq!(message, "no"),
        other => panic!("unexpected result: {other:?}"),
    }
}

#[test]
fn double_checked_lock_execute_finishes() {
    let done = DoubleCheckedLock::on(Mutex::new(0)).when(|| true).try_execute(|| Ok::<(), io::Error>(())).unwrap().finish();
    assert!(done);
    let skipped = DoubleCheckedLock::on(Mutex::new(0))
        .when(|| false)
        .try_execute_with(|value: &mut i32| {
            *value = 1;
            Ok::<(), io::Error>(())
        })
        .unwrap()
        .try_finish();
    assert!(matches!(skipped, Ok(false)));
}

#[test]
fn dcl_executor_reports_a_busy_lock_without_running_the_task() {
    let lock = Mutex::new(());
    let executor = DclExecutor::new(|| true);
    let ran = Cell::new(false);
    let held = lock.lock().unwrap();
    let outcome = executor.try_run(&lock, || {
        ran.set(true);
        Ok::<(), io::Error>(())
    });
    drop(held);
    assert!(matches!(outcome, Err(LockFailure::WouldBlock)));
    assert!(!ran.get());
}

#[test]
fn dcl_executor_does_not_touch_a_busy_lock_when_the_gate_is_closed() {
    let lock = Mutex::new(());
    let executor = DclExecutor::new(|| false);
    let held = lock.lock().unwrap();
    let outcome = executor.try_run(&lock, || Ok::<(), io::Error>(()));
    drop(held);
    assert!(matches!(outcome, Ok(ExecutionOutcome::ConditionNotMet)));
}

#[test]
fn executor_clones_share_the_predicate() {
    let calls = Arc::new(AtomicUsize::new(0));
    let executor = DclExecutor::new({
        let calls = Arc::clone(&calls);
        move || {
            calls.fetch_add(1, Ordering::SeqCst);
            true
        }
    });
    let copy = executor.clone();
    let lock = Mutex::new(());
    let outcome = copy.try_run(&lock, || Ok::<u8, io::Error>(2)).unwrap();
    assert!(matches!(outcome, ExecutionOutcome::Success(2)));
    assert_eq!(calls.load(Ordering::SeqCst), 2);
    let owning = DoubleCheckedLockExecutor::builder(Arc::new(Mutex::new(3))).when(|| true).build();
    let owning_copy = owning.clone();
    owning_copy
        .try_run_with_data(|value: &mut i32| {
            *value = 4;
            Ok::<(), io::Error>(())
        })
        .unwrap();
    assert_eq!(*owning.lock().lock().unwrap(), 4);
}

#[test]
fn run_acquiring_takes_the_lock_only_after_the_first_check_passes() {
    let acquired = Cell::new(0);
    let closed = DclExecutor::new(|| false);
    let outcome = closed.run_acquiring(|| acquired.set(acquired.get() + 1), || Ok::<(), io::Error>(()));
    assert!(matches!(outcome, ExecutionOutcome::ConditionNotMet));
    assert_eq!(acquired.get(), 0);
    let open = DclExecutor::new(|| true);
    let outcome = open.run_acquiring(|| acquired.set(acquired.get() + 1), || Ok::<u8, io::Error>(5));
    assert!(matches!(outcome, ExecutionOutcome::Success(5)));
    assert_eq!(acquired.get(), 1);
}

#[test]
fn gate_protocol_orders_check_lock_check_task() {
    let run: GateRun<u8, &str> = GateRun::new();
    assert_eq!(run.next_action(), GateAction::CheckInitialCondition);
    let run = run.on_initial_check(true);
    assert_eq!(run.next_action(), GateAction::AcquireLock);
    let run = run.on_lock(Ok(()));
    assert_eq!(run.next_action(), GateAction::CheckLockedCondition);
    let run = run.on_second_check(true);
    assert_eq!(run.next_action(), GateAction::RunTask);
    let run = run.on_task(Ok(3));
    assert_eq!(run.next_action(), GateAction::Finish);
    assert!(matches!(run.into_result(), Ok(ExecutionOutcome::Success(3))));
}

#[test]
fn gate_protocol_ends_early() {
    let closed: GateRun<u8, &str> = GateRun::new().on_initial_check(false);
    assert_eq!(closed.next_action(), GateAction::Finish);
    assert!(matches!(closed.into_result(), Ok(ExecutionOutcome::ConditionNotMet)));
    let busy: GateRun<u8, &str> = GateRun::new().on_initial_check(true).on_lock(Err(LockFailure::Poisoned));
    assert!(matches!(busy.into_result(), Err(LockFailure::Poisoned)));
    let rechecked: GateRun<u8, &str> = GateRun::new().on_initial_check(true).on_lock(Ok(())).on_second_check(false);
    assert!(matches!(rechecked.into_result(), Ok(ExecutionOutcome::ConditionNotMet)));
    let failed: GateRun<u8, &str> =
        GateRun::new().on_initial_check(true).on_lock(Ok(())).on_second_check(true).on_task(Err("bad"));
    assert!(matches!(failed.into_result(), Ok(ExecutionOutcome::TaskFailed("bad"))));
}
