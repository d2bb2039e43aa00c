//! Panic phases and captured panic metadata.

use vstd::prelude::*;

verus! {

/// Identifies the lifecycle phase in which a captured panic occurred.
#[derive(Debug, Clone, Copy, PartialEq, Eq, Hash, Structural)]
pub enum PanicPhase {
    /// The lock-free condition check panicked.
    InitialConditionCheck,
    /// The prepare callback panicked.
    Prepare,
    /// Acquiring or entering the executor lock panicked.
    LockAcquisition,
    /// The condition check performed while holding the lock panicked.
    SecondConditionCheck,
    /// The task panicked while holding the executor lock.
    Task,
    /// Releasing the executor lock after locked work panicked.
    LockRelease,
    /// The commit callback panicked after the lock was released.
    Commit,
    /// The rollback callback panicked after the lock was released.
    Rollback,
}

impl PanicPhase {
    /// Whether the phase belongs to the locked part of an invocation.
    pub open spec fn spec_is_locked_phase(self) -> bool {
        self == PanicPhase::LockAcquisition || self == PanicPhase::SecondConditionCheck
            || self == PanicPhase::Task || self == PanicPhase::LockRelease
    }

    /// Returns whether the phase belongs to the locked part of an invocation
    /// (lock acquisition, second check, task or lock release).
    pub fn is_locked_phase(&self) -> (r: bool)
        ensures
            r <==> self.spec_is_locked_phase(),
    {
        match self {
            PanicPhase::LockAcquisition => true,
            PanicPhase::SecondConditionCheck => true,
            PanicPhase::Task => true,
            PanicPhase::LockRelease => true,
            _ => false,
        }
    }
}

/// The original payload of a caught unwind.
///
/// The payload is an arbitrary `Send` value of unknown type; it is carried
/// through the library unchanged so that it can be inspected or resumed by the
/// caller. Its contents are never inspected by verified code.
#[verifier::external_body]
#[derive(Debug)]
pub struct PanicPayload(pub Box<dyn std::any::Any + Send + 'static>);

/// Preserves a captured panic payload together with its execution phase and
/// the message extracted from common string payloads.
#[derive(Debug)]
#[must_use]
pub struct PanicInfo {
    /// Phase in which the panic was captured.
    phase: PanicPhase,
    /// String message extracted from `&str` and `String` payloads.
    message: Option<String>,
    /// Original panic payload used for inspection or resumed unwinding.
    payload: PanicPayload,
}

/// The characters of an optional message.
pub open spec fn opt_chars(message: Option<String>) -> Option<Seq<char>> {
    match message {
        Some(m) => Some(m@),
        None => None,
    }
}

impl PanicInfo {
    /// Phase recorded for the panic.
    pub closed spec fn spec_phase(&self) -> PanicPhase {
        self.phase
    }

    /// Message recorded for the panic, as characters.
    pub closed spec fn spec_message(&self) -> Option<Seq<char>> {
        opt_chars(self.message)
    }

    /// Payload carried by the panic metadata.
    pub closed spec fn spec_payload(&self) -> PanicPayload {
        self.payload
    }

    /// Creates panic metadata from a caught payload, the phase that was
    /// active when unwinding crossed the capture boundary, and the message
    /// extracted from the payload when it is a string.
    pub fn new(phase: PanicPhase, message: Option<String>, payload: PanicPayload) -> (r: Self)
        ensures
            r.spec_phase() == phase,
            r.spec_message() == opt_chars(message),
            r.spec_payload() == payload,
    {
        PanicInfo { phase, message, payload }
    }

    /// Returns the phase in which the panic occurred.
    pub fn phase(&self) -> (r: PanicPhase)
        ensures
            r == self.spec_phase(),
    {
        self.phase
    }

    /// Returns the message extracted from a string panic payload, or `None`
    /// for other payload types.
    pub fn message(&self) -> (r: Option<&str>)
        ensures
            r matches Some(s) ==> self.spec_message() == Some(s@),
            r is None <==> self.spec_message() is None,
    {
        match &self.message {
            Some(m) => Some(m.as_str()),
            None => None,
        }
    }

    /// Returns the original panic payload by reference.
    pub fn payload(&self) -> (r: &PanicPayload)
        ensures
            *r == self.spec_payload(),
    {
        &self.payload
    }

    /// Consumes the metadata and returns the original panic payload.
    pub fn into_payload(self) -> (r: PanicPayload)
        ensures
            r == self.spec_payload(),
    {
        self.payload
    }
}

} // verus!
