//! The lifecycle-aware executor and its typestate builder.
//!
//! Each builder stage exposes only the valid next steps: a predicate, then
//! prepare, then a commit choice, then a rollback choice (a configuration
//! without commit must roll back), then build.

use vstd::prelude::*;

use crate::dcl::{DclCore, share};
use crate::outcome::RollbackCause;

verus! {

/// Marks a lifecycle configuration whose successful path drops the token
/// without a commit callback.
#[derive(Debug, Clone, Copy, PartialEq, Eq, Structural)]
pub struct NoCommit;

/// Marks a lifecycle configuration whose unsuccessful path drops the token
/// without a rollback callback.
#[derive(Debug, Clone, Copy, PartialEq, Eq, Structural)]
pub struct NoRollback;

/// Executes a double-checked task with per-invocation prepare and
/// finalization callbacks.
///
/// Prepare runs after the lock-free check and before lock acquisition.
/// Commit or rollback consumes the token after the executor lock has been
/// released. The executor owns neither a lock nor protected data; each
/// invocation supplies the lock mode to use.
pub struct LifecycleDclExecutor<P, C, Pred, Prep, Com, Rb> {
    /// Shared predicate.
    core: DclCore<Pred>,
    /// Callback that creates one token for each prepared invocation.
    prepare: std::sync::Arc<Prep>,
    /// Successful-path finalizer, or [`NoCommit`].
    commit: std::sync::Arc<Com>,
    /// Unsuccessful-path finalizer, or [`NoRollback`].
    rollback: std::sync::Arc<Rb>,
    /// Whether `run` and `run_with_token` capture panics as outcomes.
    catch_panics: bool,
    /// Whether a commit callback was configured.
    has_commit: bool,
    /// Whether a rollback callback was configured.
    has_rollback: bool,
    /// Token and lifecycle error types of the callbacks.
    marker: core::marker::PhantomData<(P, C)>,
}

/// The lifecycle executor whose plain runs capture panics when so
/// configured; it is the same executor type.
pub type LifecycleDoubleCheckedLockExecutor<P, C, Pred, Prep, Com, Rb> = LifecycleDclExecutor<P, C, Pred, Prep, Com, Rb>;

/// Builder stage that cannot proceed without a predicate.
pub struct LifecycleDclExecutorBuilder;

/// The initial builder stage of [`LifecycleDoubleCheckedLockExecutor`].
pub type LifecycleDoubleCheckedLockExecutorBuilder = LifecycleDclExecutorBuilder;

/// Builder stage that holds the predicate and requires prepare.
pub struct LifecyclePredicateBuilder<Pred> {
    /// Predicate configuration.
    core: DclCore<Pred>,
}

/// Builder stage that holds prepare and requires a commit choice.
pub struct LifecyclePrepareBuilder<P, C, Pred, Prep> {
    /// Predicate configuration.
    core: DclCore<Pred>,
    /// Token producer.
    prepare: Prep,
    /// Token and lifecycle error types of the callbacks.
    marker: core::marker::PhantomData<(P, C)>,
}

/// Builder stage that holds a commit callback and requires a rollback choice.
pub struct LifecycleCommitBuilder<P, C, Pred, Prep, Com> {
    /// Predicate configuration.
    core: DclCore<Pred>,
    /// Token producer.
    prepare: Prep,
    /// Successful-path finalizer.
    commit: Com,
    /// Token and lifecycle error types of the callbacks.
    marker: core::marker::PhantomData<(P, C)>,
}

/// Builder stage reached by declining commit; rollback is then mandatory.
pub struct LifecycleRollbackBuilder<P, C, Pred, Prep> {
    /// Predicate configuration.
    core: DclCore<Pred>,
    /// Token producer.
    prepare: Prep,
    /// Token and lifecycle error types of the callbacks.
    marker: core::marker::PhantomData<(P, C)>,
}

/// Builder stage with a complete configuration.
pub struct LifecycleReadyBuilder<P, C, Pred, Prep, Com, Rb> {
    /// Predicate configuration.
    core: DclCore<Pred>,
    /// Token producer.
    prepare: Prep,
    /// Successful-path finalizer, or [`NoCommit`].
    commit: Com,
    /// Unsuccessful-path finalizer, or [`NoRollback`].
    rollback: Rb,
    /// Whether plain runs capture panics.
    catch_panics: bool,
    /// Whether a commit callback was configured.
    has_commit: bool,
    /// Whether a rollback callback was configured.
    has_rollback: bool,
    /// Token and lifecycle error types of the callbacks.
    marker: core::marker::PhantomData<(P, C)>,
}

impl LifecycleDclExecutor<(), (), (), (), (), ()> {
    /// Starts building a lifecycle executor.
    pub fn builder() -> (r: LifecycleDclExecutorBuilder) {
        LifecycleDclExecutorBuilder
    }
}

impl LifecycleDclExecutorBuilder {
    /// Sets the lock-free condition evaluated before and after locking.
    pub fn when<Pred>(self, predicate: Pred) -> (r: LifecyclePredicateBuilder<Pred>)
        where
            Pred: Fn() -> bool + Send + Sync + 'static,
        ensures
            r.spec_predicate() == predicate,
    {
        LifecyclePredicateBuilder { core: DclCore::new(predicate) }
    }
}

impl<Pred> LifecyclePredicateBuilder<Pred> {
    /// The configured predicate.
    pub closed spec fn spec_predicate(&self) -> Pred {
        self.core.spec_predicate()
    }

    /// Sets the callback that produces one token per prepared invocation.
    pub fn prepare<P, C, Prep>(self, prepare: Prep) -> (r: LifecyclePrepareBuilder<P, C, Pred, Prep>)
        where
            Prep: Fn() -> Result<P, C> + Send + Sync + 'static,
        ensures
            r.spec_predicate() == self.spec_predicate(),
            r.spec_prepare() == prepare,
    {
        LifecyclePrepareBuilder { core: self.core, prepare, marker: core::marker::PhantomData }
    }
}

impl<P, C, Pred, Prep> LifecyclePrepareBuilder<P, C, Pred, Prep> {
    /// The configured predicate.
    pub closed spec fn spec_predicate(&self) -> Pred {
        self.core.spec_predicate()
    }

    /// The configured token producer.
    pub closed spec fn spec_prepare(&self) -> Prep {
        self.prepare
    }

    /// Sets the callback that consumes the token after task success.
    pub fn commit<Com>(self, commit: Com) -> (r: LifecycleCommitBuilder<P, C, Pred, Prep, Com>)
        where
            Com: Fn(P) -> Result<(), C> + Send + Sync + 'static,
        ensures
            r.spec_predicate() == self.spec_predicate(),
            r.spec_prepare() == self.spec_prepare(),
            r.spec_commit() == commit,
    {
        LifecycleCommitBuilder { core: self.core, prepare: self.prepare, commit, marker: core::marker::PhantomData }
    }

    /// Declares that the successful path drops the token without commit.
    pub fn no_commit(self) -> (r: LifecycleRollbackBuilder<P, C, Pred, Prep>)
        ensures
            r.spec_predicate() == self.spec_predicate(),
            r.spec_prepare() == self.spec_prepare(),
    {
        LifecycleRollbackBuilder { core: self.core, prepare: self.prepare, marker: core::marker::PhantomData }
    }
}

impl<P, C, Pred, Prep, Com> LifecycleCommitBuilder<P, C, Pred, Prep, Com> {
    /// The configured predicate.
    pub closed spec fn spec_predicate(&self) -> Pred {
        self.core.spec_predicate()
    }

    /// The configured token producer.
    pub closed spec fn spec_prepare(&self) -> Prep {
        self.prepare
    }

    /// The configured commit callback.
    pub closed spec fn spec_commit(&self) -> Com {
        self.commit
    }

    /// Sets the callback that consumes the token after unsuccessful work.
    pub fn rollback<Rb>(self, rollback: Rb) -> (r: LifecycleReadyBuilder<P, C, Pred, Prep, Com, Rb>)
        where
            Rb: for <'a> Fn(P, RollbackCause<'a>) -> Result<(), C> + Send + Sync + 'static,
        ensures
            r.spec_predicate() == self.spec_predicate(),
            r.spec_prepare() == self.spec_prepare(),
            r.spec_commit() == self.spec_commit(),
            r.spec_rollback() == rollback,
            !r.spec_catch_panics(),
            r.spec_has_commit(),
            r.spec_has_rollback(),
    {
        LifecycleReadyBuilder {
            core: self.core,
            prepare: self.prepare,
            commit: self.commit,
            rollback,
            catch_panics: false,
            has_commit: true,
            has_rollback: true,
            marker: core::marker::PhantomData,
        }
    }

    /// Declares that the unsuccessful path drops the token without rollback.
    pub fn no_rollback(self) -> (r: LifecycleReadyBuilder<P, C, Pred, Prep, Com, NoRollback>)
        ensures
            r.spec_predicate() == self.spec_predicate(),
            r.spec_prepare() == self.spec_prepare(),
            r.spec_commit() == self.spec_commit(),
            !r.spec_catch_panics(),
            r.spec_has_commit(),
            !r.spec_has_rollback(),
    {
        LifecycleReadyBuilder {
            core: self.core,
            prepare: self.prepare,
            commit: self.commit,
            rollback: NoRollback,
            catch_panics: false,
            has_commit: true,
            has_rollback: false,
            marker: core::marker::PhantomData,
        }
    }
}

impl<P, C, Pred, Prep> LifecycleRollbackBuilder<P, C, Pred, Prep> {
    /// The configured predicate.
    pub closed spec fn spec_predicate(&self) -> Pred {
        self.core.spec_predicate()
    }

    /// The configured token producer.
    pub closed spec fn spec_prepare(&self) -> Prep {
        self.prepare
    }

    /// Sets the callback that consumes the token after unsuccessful work.
    pub fn rollback<Rb>(self, rollback: Rb) -> (r: LifecycleReadyBuilder<P, C, Pred, Prep, NoCommit, Rb>)
        where
            Rb: for <'a> Fn(P, RollbackCause<'a>) -> Result<(), C> + Send + Sync + 'static,
        ensures
            r.spec_predicate() == self.spec_predicate(),
            r.spec_prepare() == self.spec_prepare(),
            r.spec_rollback() == rollback,
            !r.spec_catch_panics(),
            !r.spec_has_commit(),
            r.spec_has_rollback(),
    {
        LifecycleReadyBuilder {
            core: self.core,
            prepare: self.prepare,
            commit: NoCommit,
            rollback,
            catch_panics: false,
            has_commit: false,
            has_rollback: true,
            marker: core::marker::PhantomData,
        }
    }
}

impl<P, C, Pred, Prep, Com, Rb> LifecycleReadyBuilder<P, C, Pred, Prep, Com, Rb> {
    /// The configured predicate.
    pub closed spec fn spec_predicate(&self) -> Pred {
        self.core.spec_predicate()
    }

    /// The configured token producer.
    pub closed spec fn spec_prepare(&self) -> Prep {
        self.prepare
    }

    /// The configured commit callback or [`NoCommit`].
    pub closed spec fn spec_commit(&self) -> Com {
        self.commit
    }

    /// The configured rollback callback or [`NoRollback`].
    pub closed spec fn spec_rollback(&self) -> Rb {
        self.rollback
    }

    /// Whether plain runs of the built executor capture panics.
    pub closed spec fn spec_catch_panics(&self) -> bool {
        self.catch_panics
    }

    /// Whether a commit callback was configured.
    pub closed spec fn spec_has_commit(&self) -> bool {
        self.has_commit
    }

    /// Whether a rollback callback was configured.
    pub closed spec fn spec_has_rollback(&self) -> bool {
        self.has_rollback
    }

    /// A complete configuration finalizes at least one path: declining both
    /// commit and rollback is not a reachable builder stage.
    #[verifier::type_invariant]
    spec fn finalizes_a_path(&self) -> bool {
        self.has_commit || self.has_rollback
    }

    /// Sets whether `run` and `run_with_token` capture panics as outcomes.
    pub fn catch_panics(self, catch_panics: bool) -> (r: Self)
        ensures
            r.spec_predicate() == self.spec_predicate(),
            r.spec_prepare() == self.spec_prepare(),
            r.spec_commit() == self.spec_commit(),
            r.spec_rollback() == self.spec_rollback(),
            r.spec_catch_panics() == catch_panics,
            r.spec_has_commit() == self.spec_has_commit(),
            r.spec_has_rollback() == self.spec_has_rollback(),
    {
        proof {
            use_type_invariant(&self);
        }
        LifecycleReadyBuilder {
            core: self.core,
            prepare: self.prepare,
            commit: self.commit,
            rollback: self.rollback,
            catch_panics,
            has_commit: self.has_commit,
            has_rollback: self.has_rollback,
            marker: core::marker::PhantomData,
        }
    }

    /// Builds the executor.
    pub fn build(self) -> (r: LifecycleDclExecutor<P, C, Pred, Prep, Com, Rb>)
        ensures
            r.spec_predicate() == self.spec_predicate(),
            r.spec_prepare() == self.spec_prepare(),
            r.spec_commit() == self.spec_commit(),
            r.spec_rollback() == self.spec_rollback(),
            r.spec_catch_panics() == self.spec_catch_panics(),
            r.spec_has_commit() == self.spec_has_commit(),
            r.spec_has_rollback() == self.spec_has_rollback(),
            r.spec_has_commit() || r.spec_has_rollback(),
    {
        proof {
            use_type_invariant(&self);
        }
        LifecycleDclExecutor {
            core: self.core,
            prepare: std::sync::Arc::new(self.prepare),
            commit: std::sync::Arc::new(self.commit),
            rollback: std::sync::Arc::new(self.rollback),
            catch_panics: self.catch_panics,
            has_commit: self.has_commit,
            has_rollback: self.has_rollback,
            marker: core::marker::PhantomData,
        }
    }
}

impl<P, C, Pred, Prep, Com, Rb> LifecycleDclExecutor<P, C, Pred, Prep, Com, Rb> {
    /// The configured predicate.
    pub closed spec fn spec_predicate(&self) -> Pred {
        self.core.spec_predicate()
    }

    /// The configured token producer.
    pub closed spec fn spec_prepare(&self) -> Prep {
        *self.prepare
    }

    /// The configured commit callback or [`NoCommit`].
    pub closed spec fn spec_commit(&self) -> Com {
        *self.commit
    }

    /// The configured rollback callback or [`NoRollback`].
    pub closed spec fn spec_rollback(&self) -> Rb {
        *self.rollback
    }

    /// Whether plain runs capture panics.
    pub closed spec fn spec_catch_panics(&self) -> bool {
        self.catch_panics
    }

    /// Whether a commit callback was configured.
    pub closed spec fn spec_has_commit(&self) -> bool {
        self.has_commit
    }

    /// Whether a rollback callback was configured.
    pub closed spec fn spec_has_rollback(&self) -> bool {
        self.has_rollback
    }

    /// Returns the predicate core used for both condition checks.
    pub fn predicate_core(&self) -> (r: &DclCore<Pred>)
        ensures
            r.spec_predicate() == self.spec_predicate(),
    {
        &self.core
    }

    /// Returns the token producer.
    pub fn prepare_callback(&self) -> (r: &Prep)
        ensures
            *r == self.spec_prepare(),
    {
        &*self.prepare
    }

    /// Returns the commit callback or [`NoCommit`].
    pub fn commit_callback(&self) -> (r: &Com)
        ensures
            *r == self.spec_commit(),
    {
        &*self.commit
    }

    /// Returns the rollback callback or [`NoRollback`].
    pub fn rollback_callback(&self) -> (r: &Rb)
        ensures
            *r == self.spec_rollback(),
    {
        &*self.rollback
    }

    /// Returns whether a commit callback was configured.
    pub fn has_commit(&self) -> (r: bool)
        ensures
            r == self.spec_has_commit(),
    {
        self.has_commit
    }

    /// Returns whether a rollback callback was configured.
    pub fn has_rollback(&self) -> (r: bool)
        ensures
            r == self.spec_has_rollback(),
    {
        self.has_rollback
    }

    /// Returns whether `run` and `run_with_token` capture panics.
    pub fn catches_panics(&self) -> (r: bool)
        ensures
            r == self.spec_catch_panics(),
    {
        self.catch_panics
    }
}

impl<P, C, Pred, Prep, Com, Rb> Clone for LifecycleDclExecutor<P, C, Pred, Prep, Com, Rb> {
    /// Shares the predicate and every callback with the clone and copies the
    /// panic-capture setting.
    fn clone(&self) -> (r: Self)
        ensures
            r.spec_predicate() == self.spec_predicate(),
            r.spec_prepare() == self.spec_prepare(),
            r.spec_commit() == self.spec_commit(),
            r.spec_rollback() == self.spec_rollback(),
            r.spec_catch_panics() == self.spec_catch_panics(),
            r.spec_has_commit() == self.spec_has_commit(),
            r.spec_has_rollback() == self.spec_has_rollback(),
    {
        LifecycleDclExecutor {
            core: self.core.clone(),
            prepare: share(&self.prepare),
            commit: share(&self.commit),
            rollback: share(&self.rollback),
            catch_panics: self.catch_panics,
            has_commit: self.has_commit,
            has_rollback: self.has_rollback,
            marker: core::marker::PhantomData,
        }
    }
}

} // verus!
