use std::sync::Mutex;

use qubit_dcl::{
    CallbackError, DoubleCheckedLock, ExecutionContext, ExecutionLogger, ExecutionResult, ExecutorBuilder,
    ExecutorError, LogLevel,
};

#[test]
fn callback_error_with_callback_type_reports_label() {
    let prepare_error = CallbackError::with_callback_type("prepare", "Resource is locked");
    assert_eq!(prepare_error.callback_type(), Some("prepare"));
    assert_eq!(prepare_error.message(), "Resource is locked");
    assert!(prepare_error.is_typed());
    assert_eq!(prepare_error.to_display_string(), "prepare: Resource is locked");
}

#[test]
fn callback_error_from_display_has_no_label() {
    let error = CallbackError::from_display(42);
    assert_eq!(error.message(), "42");
    assert_eq!(error.callback_type(), None);
    assert!(!error.is_typed());
    assert_eq!(error.to_display_string(), "42");
}

#[test]
fn executor_error_callback_type_prefers_rollback_label() {
    let task: ExecutorError<String> = ExecutorError::TaskFailed("task failed".to_string());
    assert_eq!(task.callback_type(), None);
    let prepare: ExecutorError<String> =
        ExecutorError::PrepareFailed(CallbackError::with_callback_type("prepare", "down"));
    assert_eq!(prepare.callback_type(), Some("prepare"));
    let both: ExecutorError<String> = ExecutorError::PrepareRollbackFailed {
        original: CallbackError::with_callback_type("prepare", "a"),
        rollback: CallbackError::with_callback_type("prepare_rollback", "b"),
    };
    assert_eq!(both.callback_type(), Some("prepare_rollback"));
    let only_original: ExecutorError<String> = ExecutorError::PrepareRollbackFailed {
        original: CallbackError::with_callback_type("prepare", "a"),
        rollback: CallbackError::from_display("b"),
    };
    assert_eq!(only_original.callback_type(), Some("prepare"));
    let untyped: ExecutorError<String> = ExecutorError::Panic(CallbackError::from_display("boom"));
    assert_eq!(untyped.callback_type(), None);
}

#[test]
fn executor_error_display_text_names_the_failing_step() {
    let task: ExecutorError<String> = ExecutorError::TaskFailed("task failed".to_string());
    assert_eq!(task.to_display_string(), "Task execution failed: task failed");
    let panic: ExecutorError<String> = ExecutorError::Panic(CallbackError::from_display("boom"));
    assert_eq!(panic.to_display_string(), "Execution panicked: boom");
    let prepare: ExecutorError<String> =
        ExecutorError::PrepareFailed(CallbackError::from_display("Service is not running"));
    assert_eq!(prepare.to_display_string(), "Preparation action failed: Service is not running");
    let commit: ExecutorError<String> =
        ExecutorError::PrepareCommitFailed(CallbackError::with_callback_type("prepare_commit", "x"));
    assert_eq!(commit.to_display_string(), "Prepare commit action failed: prepare_commit: x");
    let rollback: ExecutorError<String> = ExecutorError::PrepareRollbackFailed {
        original: CallbackError::from_display("a"),
        rollback: CallbackError::from_display("b"),
    };
    assert_eq!(rollback.to_display_string(), "Prepare rollback failed: original error = a, rollback error = b");
}

#[test]
fn execution_result_constructors_and_predicates() {
    let success: ExecutionResult<i32, String> = ExecutionResult::success(42);
    assert!(success.is_success() && !success.is_unmet() && !success.is_failed());
    assert_eq!(success.unwrap(), 42);
    let unmet: ExecutionResult<i32, String> = ExecutionResult::unmet();
    assert!(unmet.is_unmet());
    assert!(matches!(unmet.into_result(), Ok(None)));
    let failed: ExecutionResult<i32, String> = ExecutionResult::task_failed("Task failed".to_string());
    assert!(failed.is_failed());
    match failed.into_result() {
        Err(ExecutorError::TaskFailed(message)) => assert_eq!(message, "Task failed"),
        other => panic!("unexpected result: {other:?}"),
    }
    let ok: ExecutionResult<i32, String> = ExecutionResult::success(1);
    assert!(matches!(ok.into_result(), Ok(Some(1))));
}

#[test]
fn execution_result_prepare_failures_carry_messages() {
    let prepare: ExecutionResult<(), String> = ExecutionResult::prepare_failed("no space");
    match prepare {
        ExecutionResult::Failed(ExecutorError::PrepareFailed(error)) => {
            assert_eq!(error.message(), "no space");
            assert_eq!(error.callback_type(), None);
        }
        other => panic!("unexpected result: {other:?}"),
    }
    let typed: ExecutionResult<(), String> = ExecutionResult::prepare_failed_with_type("prepare", "no space");
    match typed.into_result() {
        Err(error) => assert_eq!(error.callback_type(), Some("prepare")),
        other => panic!("unexpected result: {other:?}"),
    }
    let commit: ExecutionResult<(), String> = ExecutionResult::prepare_commit_failed("io");
    assert!(matches!(commit, ExecutionResult::Failed(ExecutorError::PrepareCommitFailed(_))));
    let rollback: ExecutionResult<(), String> = ExecutionResult::prepare_rollback_failed("original", "rollback");
    match rollback {
        ExecutionResult::Failed(ExecutorError::PrepareRollbackFailed { original, rollback }) => {
            assert_eq!(original.message(), "original");
            assert_eq!(rollback.message(), "rollback");
        }
        other => panic!("unexpected result: {other:?}"),
    }
    let wrapped: ExecutionResult<(), String> =
        ExecutionResult::from_executor_error(ExecutorError::Panic(CallbackError::from_display("p")));
    assert!(wrapped.is_failed());
}

#[test]
fn execution_context_finish_and_try_finish() {
    let success: ExecutionContext<(), String> = ExecutionContext::new(ExecutionResult::success(()));
    assert!(success.is_success());
    assert!(success.finish());
    let unmet: ExecutionContext<(), String> = ExecutionContext::new(ExecutionResult::unmet());
    assert!(matches!(unmet.try_finish(), Ok(false)));
    let done: ExecutionContext<(), String> = ExecutionContext::new(ExecutionResult::success(()));
    assert!(matches!(done.try_finish(), Ok(true)));
    let failed: ExecutionContext<(), String> = ExecutionContext::new(ExecutionResult::task_failed("f".to_string()));
    assert!(!ExecutionContext::new(ExecutionResult::<(), String>::unmet()).finish());
    match failed.try_finish() {
        Err(ExecutorError::TaskFailed(message)) => assert_eq!(message, "f"),
        other => panic!("unexpected result: {other:?}"),
    }
    let peeked: ExecutionContext<i32, String> = ExecutionContext::new(ExecutionResult::success(5));
    assert!(peeked.peek_result().is_success());
    assert_eq!(peeked.get_result().unwrap(), 5);
}

#[test]
fn execution_logger_defaults() {
    let logger = ExecutionLogger::default();
    assert_eq!(logger.unmet_condition_level(), None);
    assert_eq!(logger.unmet_condition_message(), "");
    assert_eq!(logger.prepare_failed_level(), Some(LogLevel::Error));
    assert_eq!(logger.prepare_failed_message(), "Prepare action failed");
    assert_eq!(logger.prepare_commit_failed_level(), Some(LogLevel::Error));
    assert_eq!(logger.prepare_commit_failed_message(), "Prepare commit action failed");
    assert_eq!(logger.prepare_rollback_failed_level(), Some(LogLevel::Error));
    assert_eq!(logger.prepare_rollback_failed_message(), "Prepare rollback action failed");
    assert!(logger.unmet_condition_record().is_none());
    assert_eq!(logger.prepare_failed_record(), Some((LogLevel::Error, "Prepare action failed")));
}

#[test]
fn execution_logger_setters_change_one_event() {
    let mut logger = ExecutionLogger::default();
    logger.set_unmet_condition(Some(LogLevel::Info), "skipped");
    assert_eq!(logger.unmet_condition_record(), Some((LogLevel::Info, "skipped")));
    assert_eq!(logger.prepare_failed_message(), "Prepare action failed");
    logger.disable_unmet_condition();
    assert_eq!(logger.unmet_condition_record(), None);
    assert_eq!(logger.unmet_condition_message(), "skipped");
    logger.set_prepare_failure(Some(LogLevel::Warn), "prep");
    assert_eq!(logger.prepare_failed_record(), Some((LogLevel::Warn, "prep")));
    logger.disable_prepare_failure();
    assert_eq!(logger.prepare_failed_level(), None);
    logger.set_prepare_commit_failure(None, "commit");
    assert_eq!(logger.prepare_commit_failed_record(), None);
    assert_eq!(logger.prepare_commit_failed_message(), "commit");
    logger.set_prepare_commit_failure(Some(LogLevel::Debug), "commit2");
    assert_eq!(logger.prepare_commit_failed_record(), Some((LogLevel::Debug, "commit2")));
    logger.disable_prepare_commit_failure();
    assert_eq!(logger.prepare_commit_failed_level(), None);
    logger.set_prepare_rollback_failure(Some(LogLevel::Trace), "rb");
    assert_eq!(logger.prepare_rollback_failed_record(), Some((LogLevel::Trace, "rb")));
    logger.disable_prepare_rollback_failure();
    assert_eq!(logger.prepare_rollback_failed_record(), None);
    assert_eq!(logger.prepare_rollback_failed_message(), "rb");
}

#[test]
fn executor_builder_chain_configures_logging_and_capture() {
    let builder = ExecutorBuilder::default()
        .log_unmet_condition(LogLevel::Info, "not needed")
        .log_prepare_failure(LogLevel::Warn, "prepare")
        .log_prepare_commit_failure(LogLevel::Warn, "commit")
        .log_prepare_rollback_failure(LogLevel::Warn, "rollback")
        .catch_panics();
    let builder = builder.disable_prepare_failure_logging().with_panic_capture(false);
    let builder = builder.disable_unmet_condition_logging().disable_prepare_commit_failure_logging();
    let builder = builder.disable_prepare_rollback_failure_logging().disable_catch_panics();
    let executor = builder.on(Mutex::new(1)).when(|| true).build();
    let logger = executor.logger();
    assert_eq!(logger.unmet_condition_level(), None);
    assert_eq!(logger.unmet_condition_message(), "not needed");
    assert_eq!(logger.prepare_failed_level(), None);
    assert_eq!(logger.prepare_failed_message(), "prepare");
    assert_eq!(logger.prepare_commit_failed_level(), None);
    assert_eq!(logger.prepare_rollback_failed_message(), "rollback");
    assert!(!executor.catches_panics());
}

#[test]
fn double_checked_lock_builders_forward_configuration() {
    let executor = DoubleCheckedLock::on(Mutex::new(0))
        .log_unmet_condition(LogLevel::Debug, "gate closed")
        .catch_panics()
        .when(|| true)
        .log_prepare_failure(LogLevel::Info, "p")
        .with_panic_capture(true)
        .build();
    assert_eq!(executor.logger().unmet_condition_record(), Some((LogLevel::Debug, "gate closed")));
    assert_eq!(executor.logger().prepare_failed_record(), Some((LogLevel::Info, "p")));
    assert!(executor.catches_panics());
    let plain = DoubleCheckedLock::on(Mutex::new(0)).disable_catch_panics().when(|| true).disable_catch_panics().build();
    assert!(!plain.catches_panics());
    assert_eq!(plain.logger().prepare_failed_message(), "Prepare action failed");
}
