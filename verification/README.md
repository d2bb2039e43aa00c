# qubit-dcl

Double-checked locking executors whose decisions are proved with Verus.

A double-checked execution evaluates a lock-free predicate, takes the lock only
when it holds, evaluates the predicate again under the lock, and runs the task
only when both checks passed. The lifecycle executor adds a per-invocation
token that is prepared before locking and committed or rolled back after the
lock is released.

## Layout

- `src/` is the verified library.
  - `dcl.rs`: the predicate core, the locked phase and the whole
    double-checked run, with the trusted wrappers around `qubit_lock`'s
    non-blocking acquisitions (a busy or poisoned lock is a value, never a
    panic).
  - `gate.rs`: the basic double-checked protocol as a state machine (check,
    lock, check under the lock, task), with its laws.
  - `executor.rs`: `DclExecutor` and the lock-owning
    `DoubleCheckedLockExecutor` with their builders.
  - `lifecycle.rs`: the lifecycle protocol as a state machine, with its laws.
  - `lifecycle_executor.rs`: `LifecycleDclExecutor` and its typestate builder.
  - `outcome.rs`, `execution.rs`, `panic.rs`: outcomes, locked-phase results
    and panic metadata.
  - `execution_result.rs`, `executor_error.rs`, `callback_error.rs`,
    `execution_logger.rs`, `executor_builder.rs`: results, errors, logging
    configuration and builders of context-returning executions.
- `app/` holds what Verus does not check: blocking acquisition (which waits
  for other threads and panics on a poisoned standard-library lock), panic
  capture and resumption, the loop that drives the lifecycle protocol, and
  log emission through `log`.
- `tests/` exercises the library on concrete values.
