use std::io;

use qubit_dcl::{
    ExecutionOutcome, ExecutionReport, FinalizationOutcome, LifecycleAction, LifecycleDclExecutor,
    LifecycleOutcome, LifecycleRun, LockedExecution, NoCommit, NoRollback, PanicInfo, PanicPayload, PanicPhase,
    PreparationOutcome, RollbackCause, RollbackReason,
};

fn panic_info(phase: PanicPhase, message: &str) -> PanicInfo {
    PanicInfo::new(phase, Some(message.to_string()), PanicPayload(Box::new(message.to_string())))
}

fn prepared_run(capture: bool) -> LifecycleRun<u32, &'static str, &'static str> {
    let run = LifecycleRun::new(capture);
    assert_eq!(run.next_action(), LifecycleAction::CheckInitialCondition);
    let run = run.on_initial_check(Ok(true));
    assert_eq!(run.next_action(), LifecycleAction::Prepare);
    let run = run.on_prepare(Ok(Ok(())));
    assert_eq!(run.next_action(), LifecycleAction::ExecuteLocked);
    run
}

#[test]
fn lifecycle_initial_check_false_ends_before_prepare() {
    let run: LifecycleRun<u32, &str, &str> = LifecycleRun::new(false);
    let run = run.on_initial_check(Ok(false));
    assert_eq!(run.next_action(), LifecycleAction::Finish);
    assert!(matches!(run.into_outcome(), LifecycleOutcome::InitialConditionNotMet));
}

#[test]
fn lifecycle_initial_check_panic_is_reported() {
    let run: LifecycleRun<u32, &str, &str> = LifecycleRun::new(true);
    let run = run.on_initial_check(Err(panic_info(PanicPhase::InitialConditionCheck, "gate")));
    match run.into_outcome() {
        LifecycleOutcome::InitialConditionCheckPanicked(panic) => {
            assert_eq!(panic.phase(), PanicPhase::InitialConditionCheck);
            assert_eq!(panic.message(), Some("gate"));
        }
        other => panic!("unexpected outcome: {other:?}"),
    }
}

#[test]
fn lifecycle_prepare_failure_ends_without_finalization() {
    let run: LifecycleRun<u32, &str, &str> = LifecycleRun::new(false);
    let run = run.on_initial_check(Ok(true)).on_prepare(Ok(Err("busy")));
    assert_eq!(run.next_action(), LifecycleAction::Finish);
    assert!(matches!(run.into_outcome(), LifecycleOutcome::PrepareFailed("busy")));
}

#[test]
fn lifecycle_prepare_panic_is_reported() {
    let run: LifecycleRun<u32, &str, &str> = LifecycleRun::new(true);
    let run = run.on_initial_check(Ok(true)).on_prepare(Err(panic_info(PanicPhase::Prepare, "prep")));
    assert!(matches!(run.into_outcome(), LifecycleOutcome::PreparePanicked(_)));
}

#[test]
fn lifecycle_task_success_follows_commit() {
    let run = prepared_run(false).on_locked_execution(Ok(LockedExecution::Task(Ok(2))));
    assert_eq!(run.next_action(), LifecycleAction::Commit);
    let run = run.on_finalized(FinalizationOutcome::Succeeded);
    assert!(matches!(
        run.into_outcome(),
        LifecycleOutcome::TaskSucceeded { value: 2, commit: FinalizationOutcome::Succeeded }
    ));
}

#[test]
fn lifecycle_task_success_keeps_value_when_commit_fails() {
    let run = prepared_run(false).on_locked_execution(Ok(LockedExecution::Task(Ok(9))));
    let run = run.on_finalized(FinalizationOutcome::Failed("commit"));
    assert!(matches!(
        run.into_outcome(),
        LifecycleOutcome::TaskSucceeded { value: 9, commit: FinalizationOutcome::Failed("commit") }
    ));
}

#[test]
fn lifecycle_second_check_failure_follows_rollback() {
    let run = prepared_run(false).on_locked_execution(Ok(LockedExecution::ConditionNotMet));
    assert_eq!(run.next_action(), LifecycleAction::Rollback);
    assert!(matches!(run.rollback_reason(), RollbackReason::ConditionNotMet));
    let run = run.on_finalized(FinalizationOutcome::NotRequired);
    assert!(matches!(
        run.into_outcome(),
        LifecycleOutcome::SecondConditionNotMet { rollback: FinalizationOutcome::NotRequired }
    ));
}

#[test]
fn lifecycle_task_error_and_rollback_error_are_both_kept() {
    let run = prepared_run(false).on_locked_execution(Ok(LockedExecution::Task(Err("task"))));
    assert_eq!(run.next_action(), LifecycleAction::Rollback);
    assert!(matches!(run.rollback_reason(), RollbackReason::TaskFailed(&"task")));
    let run = run.on_finalized(FinalizationOutcome::Failed("rollback"));
    assert!(matches!(
        run.into_outcome(),
        LifecycleOutcome::TaskFailed { error: "task", rollback: FinalizationOutcome::Failed("rollback") }
    ));
}

#[test]
fn lifecycle_captured_locked_panic_follows_rollback() {
    let run = prepared_run(true).on_locked_execution(Err(panic_info(PanicPhase::Task, "task panic")));
    assert_eq!(run.next_action(), LifecycleAction::Rollback);
    match run.rollback_reason() {
        RollbackReason::Panicked(panic) => assert_eq!(panic.phase(), PanicPhase::Task),
        other => panic!("unexpected reason: {other:?}"),
    }
    let run = run.on_finalized(FinalizationOutcome::Succeeded);
    match run.into_outcome() {
        LifecycleOutcome::ExecutionPanicked { panic, rollback: FinalizationOutcome::Succeeded } => {
            assert_eq!(panic.message(), Some("task panic"));
        }
        other => panic!("unexpected outcome: {other:?}"),
    }
}

#[test]
fn lifecycle_uncaptured_locked_panic_is_resumed_after_rollback() {
    let run = prepared_run(false).on_locked_execution(Err(panic_info(PanicPhase::LockAcquisition, "poisoned")));
    assert_eq!(run.next_action(), LifecycleAction::RollbackThenResume);
    assert!(matches!(run.rollback_reason(), RollbackReason::Panicked(_)));
    let panic = run.into_resumed_panic();
    assert_eq!(panic.phase(), PanicPhase::LockAcquisition);
    assert!(!PanicPhase::Commit.is_locked_phase());
    assert!(panic.phase().is_locked_phase());
}

#[test]
fn lifecycle_run_records_capture_mode() {
    let run: LifecycleRun<(), (), ()> = LifecycleRun::new(true);
    assert!(run.captures_panics());
    let run = run.on_initial_check(Ok(true));
    assert!(run.captures_panics());
}

#[test]
fn finalization_outcome_from_step_classifies_results() {
    assert!(matches!(FinalizationOutcome::<&str>::from_step(true, Ok(Ok(()))), FinalizationOutcome::Succeeded));
    assert!(matches!(FinalizationOutcome::<&str>::from_step(true, Ok(Err("e"))), FinalizationOutcome::Failed("e")));
    assert!(matches!(FinalizationOutcome::<&str>::from_step(false, Ok(Ok(()))), FinalizationOutcome::NotRequired));
    assert!(matches!(
        FinalizationOutcome::<&str>::from_step(false, Err(panic_info(PanicPhase::Rollback, "drop"))),
        FinalizationOutcome::Panicked(_)
    ));
}

#[test]
fn panic_info_keeps_phase_message_and_payload() {
    let info = PanicInfo::new(PanicPhase::Commit, None, PanicPayload(Box::new(7_u32)));
    assert_eq!(info.phase(), PanicPhase::Commit);
    assert_eq!(info.message(), None);
    assert_eq!(info.payload().0.downcast_ref::<u32>(), Some(&7));
    let payload = info.into_payload();
    assert_eq!(payload.0.downcast_ref::<u32>(), Some(&7));
}

#[test]
fn lifecycle_builder_configures_every_callback() {
    let executor = LifecycleDclExecutor::builder()
        .when(|| true)
        .prepare(|| Ok::<Vec<&'static str>, io::Error>(vec!["prepare"]))
        .commit(|token: Vec<&'static str>| {
            assert_eq!(token.len(), 2);
            Ok::<(), io::Error>(())
        })
        .rollback(|_, _| Ok::<(), io::Error>(()))
        .catch_panics(true)
        .build();
    assert!(executor.catches_panics());
    assert!(executor.predicate_core().check_initial());
    let token = (executor.prepare_callback())().unwrap();
    assert_eq!(token, vec!["prepare"]);
    assert!((executor.commit_callback())(vec!["prepare", "task"]).is_ok());
    assert!((executor.rollback_callback())(vec![], RollbackCause::ConditionNotMet).is_ok());
}

#[test]
fn lifecycle_builder_accepts_missing_finalizers() {
    let without_commit = LifecycleDclExecutor::builder()
        .when(|| false)
        .prepare(|| Ok::<u8, io::Error>(1))
        .no_commit()
        .rollback(|_, _| Ok::<(), io::Error>(()))
        .build();
    assert_eq!(*without_commit.commit_callback(), NoCommit);
    assert!(!without_commit.catches_panics());
    let without_rollback = LifecycleDclExecutor::builder()
        .when(|| true)
        .prepare(|| Ok::<u8, io::Error>(1))
        .commit(|_| Ok::<(), io::Error>(()))
        .no_rollback()
        .build();
    assert_eq!(*without_rollback.rollback_callback(), NoRollback);
}

#[test]
fn execution_report_keeps_both_axes() {
    let report: ExecutionReport<u8, &str, &str> =
        ExecutionReport::new(ExecutionOutcome::Success(1), PreparationOutcome::Committed);
    assert!(matches!(report.execution(), ExecutionOutcome::Success(1)));
    assert!(matches!(report.preparation(), PreparationOutcome::Committed));
    let (execution, preparation) = report.into_parts();
    assert!(matches!(execution, ExecutionOutcome::Success(1)));
    assert!(matches!(preparation, PreparationOutcome::Committed));
}

#[test]
fn lifecycle_commit_error_reads_as_commit_failed() {
    let run = prepared_run(false).on_locked_execution(Ok(LockedExecution::Task(Ok(9))));
    let outcome = run.on_finalized(FinalizationOutcome::Failed("commit")).into_outcome();
    let report = outcome.into_report().ok().expect("a task outcome has a report");
    let (execution, preparation) = report.into_parts();
    assert!(matches!(execution, ExecutionOutcome::Success(9)));
    assert!(matches!(preparation, PreparationOutcome::CommitFailed("commit")));
}

#[test]
fn lifecycle_rollback_error_reads_as_rollback_failed() {
    let run = prepared_run(false).on_locked_execution(Ok(LockedExecution::Task(Err("task"))));
    let outcome = run.on_finalized(FinalizationOutcome::Failed("rollback")).into_outcome();
    let report = outcome.into_report().ok().expect("a task outcome has a report");
    assert!(matches!(report.execution(), ExecutionOutcome::TaskFailed("task")));
    assert!(matches!(report.preparation(), PreparationOutcome::RollbackFailed("rollback")));
}

#[test]
fn lifecycle_preparation_axis_of_each_outcome() {
    let not_met: LifecycleOutcome<u8, &str, &str> = LifecycleOutcome::InitialConditionNotMet;
    assert!(matches!(not_met.into_preparation(), PreparationOutcome::NotStarted));
    let failed: LifecycleOutcome<u8, &str, &str> = LifecycleOutcome::PrepareFailed("prep");
    assert!(matches!(failed.into_preparation(), PreparationOutcome::PrepareFailed("prep")));
    let committed: LifecycleOutcome<u8, &str, &str> =
        LifecycleOutcome::TaskSucceeded { value: 1, commit: FinalizationOutcome::Succeeded };
    assert!(matches!(committed.into_preparation(), PreparationOutcome::Committed));
    let no_commit: LifecycleOutcome<u8, &str, &str> =
        LifecycleOutcome::TaskSucceeded { value: 1, commit: FinalizationOutcome::NotRequired };
    assert!(matches!(no_commit.into_preparation(), PreparationOutcome::CommitNotRequired));
    let rolled_back: LifecycleOutcome<u8, &str, &str> =
        LifecycleOutcome::SecondConditionNotMet { rollback: FinalizationOutcome::Succeeded };
    assert!(matches!(rolled_back.into_preparation(), PreparationOutcome::RolledBack));
    let panicked: LifecycleOutcome<u8, &str, &str> = LifecycleOutcome::ExecutionPanicked {
        panic: panic_info(PanicPhase::Task, "task"),
        rollback: FinalizationOutcome::NotRequired,
    };
    let kept = panicked.into_report();
    assert!(matches!(kept, Err(LifecycleOutcome::ExecutionPanicked { .. })));
}

#[test]
fn lifecycle_executor_clones_keep_the_configuration() {
    let executor = LifecycleDclExecutor::builder()
        .when(|| true)
        .prepare(|| Ok::<u8, io::Error>(1))
        .commit(|_token: u8| Ok::<(), io::Error>(()))
        .no_rollback()
        .catch_panics(true)
        .build();
    let copy = executor.clone();
    assert!(copy.catches_panics());
    assert!(copy.has_commit());
    assert!(!copy.has_rollback());
    assert!(matches!((copy.prepare_callback())(), Ok(1)));
}
