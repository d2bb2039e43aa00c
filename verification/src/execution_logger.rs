//! Logging configuration for double-checked execution events.
//!
//! The configuration decides, for each event, whether a line is written, at
//! which level and with which text. Writing the line itself happens outside
//! the library's verified part, through the `log` facade.

use vstd::prelude::*;
use vstd::std_specs::convert::IntoSpec;

verus! {

/// Severity of a log line, in the order of the `log` facade's levels.
#[derive(Debug, Clone, Copy, PartialEq, Eq, Hash, Structural)]
pub enum LogLevel {
    /// Designates very serious errors.
    Error,
    /// Designates hazardous situations.
    Warn,
    /// Designates useful information.
    Info,
    /// Designates lower priority information.
    Debug,
    /// Designates very low priority, often extremely verbose, information.
    Trace,
}

/// Logging configuration for double-checked execution: condition unmet,
/// prepare failures, prepare commit failures and prepare rollback failures.
///
/// Each event has its own optional level and message; `None` means the event
/// writes no line. For prepare-style events the message is a prefix, and the
/// line has the form `"{prefix}: {error}"`.
#[derive(Debug)]
pub struct ExecutionLogger {
    /// Level for the condition-unmet line; `None` skips it.
    unmet_condition_level: Option<LogLevel>,
    /// Line written when the execution condition is not met.
    unmet_condition_message: String,
    /// Level for prepare-action failure lines; `None` skips them.
    prepare_failed_level: Option<LogLevel>,
    /// Prefix for prepare-failure lines.
    prepare_failed_message: String,
    /// Level for prepare-commit failure lines; `None` skips them.
    prepare_commit_failed_level: Option<LogLevel>,
    /// Prefix for prepare-commit failure lines.
    prepare_commit_failed_message: String,
    /// Level for prepare-rollback failure lines; `None` skips them.
    prepare_rollback_failed_level: Option<LogLevel>,
    /// Prefix for prepare-rollback failure lines.
    prepare_rollback_failed_message: String,
}

/// The string that `into` produces for `message`, when the conversion
/// follows its specification.
pub open spec fn converted_message<M: Into<String>>(message: M, stored: String) -> bool {
    M::obeys_into_spec() ==> stored == message.into_spec()
}

impl ExecutionLogger {
    /// Level of the condition-unmet event.
    pub closed spec fn spec_unmet_condition_level(&self) -> Option<LogLevel> {
        self.unmet_condition_level
    }

    /// Line of the condition-unmet event.
    pub closed spec fn spec_unmet_condition_message(&self) -> String {
        self.unmet_condition_message
    }

    /// Level of the prepare-failure event.
    pub closed spec fn spec_prepare_failed_level(&self) -> Option<LogLevel> {
        self.prepare_failed_level
    }

    /// Prefix of the prepare-failure event.
    pub closed spec fn spec_prepare_failed_message(&self) -> String {
        self.prepare_failed_message
    }

    /// Level of the prepare-commit failure event.
    pub closed spec fn spec_prepare_commit_failed_level(&self) -> Option<LogLevel> {
        self.prepare_commit_failed_level
    }

    /// Prefix of the prepare-commit failure event.
    pub closed spec fn spec_prepare_commit_failed_message(&self) -> String {
        self.prepare_commit_failed_message
    }

    /// Level of the prepare-rollback failure event.
    pub closed spec fn spec_prepare_rollback_failed_level(&self) -> Option<LogLevel> {
        self.prepare_rollback_failed_level
    }

    /// Prefix of the prepare-rollback failure event.
    pub closed spec fn spec_prepare_rollback_failed_message(&self) -> String {
        self.prepare_rollback_failed_message
    }

    /// Returns the configured level for unmet-condition logging.
    pub fn unmet_condition_level(&self) -> (r: Option<LogLevel>)
        ensures
            r == self.spec_unmet_condition_level(),
    {
        self.unmet_condition_level
    }

    /// Returns the line used for unmet-condition logging.
    pub fn unmet_condition_message(&self) -> (r: &str)
        ensures
            r@ == self.spec_unmet_condition_message()@,
    {
        self.unmet_condition_message.as_str()
    }

    /// Returns the configured level for prepare-action failures.
    pub fn prepare_failed_level(&self) -> (r: Option<LogLevel>)
        ensures
            r == self.spec_prepare_failed_level(),
    {
        self.prepare_failed_level
    }

    /// Returns the prefix used for prepare-action failures.
    pub fn prepare_failed_message(&self) -> (r: &str)
        ensures
            r@ == self.spec_prepare_failed_message()@,
    {
        self.prepare_failed_message.as_str()
    }

    /// Returns the configured level for prepare-commit failures.
    pub fn prepare_commit_failed_level(&self) -> (r: Option<LogLevel>)
        ensures
            r == self.spec_prepare_commit_failed_level(),
    {
        self.prepare_commit_failed_level
    }

    /// Returns the prefix used for prepare-commit failures.
    pub fn prepare_commit_failed_message(&self) -> (r: &str)
        ensures
            r@ == self.spec_prepare_commit_failed_message()@,
    {
        self.prepare_commit_failed_message.as_str()
    }

    /// Returns the configured level for prepare-rollback failures.
    pub fn prepare_rollback_failed_level(&self) -> (r: Option<LogLevel>)
        ensures
            r == self.spec_prepare_rollback_failed_level(),
    {
        self.prepare_rollback_failed_level
    }

    /// Returns the prefix used for prepare-rollback failures.
    pub fn prepare_rollback_failed_message(&self) -> (r: &str)
        ensures
            r@ == self.spec_prepare_rollback_failed_message()@,
    {
        self.prepare_rollback_failed_message.as_str()
    }

    /// Whether this is the default configuration: unmet conditions silent
    /// with an empty line; prepare, prepare-commit and prepare-rollback
    /// failures logged at `Error` with their default prefixes.
    pub open spec fn is_default(&self) -> bool {
        &&& self.spec_unmet_condition_level() is None
        &&& self.spec_unmet_condition_message()@ == Seq::<char>::empty()
        &&& self.spec_prepare_failed_level() == Some(LogLevel::Error)
        &&& self.spec_prepare_failed_message()@ == "Prepare action failed"@
        &&& self.spec_prepare_commit_failed_level() == Some(LogLevel::Error)
        &&& self.spec_prepare_commit_failed_message()@ == "Prepare commit action failed"@
        &&& self.spec_prepare_rollback_failed_level() == Some(LogLevel::Error)
        &&& self.spec_prepare_rollback_failed_message()@ == "Prepare rollback action failed"@
    }

    /// Whether `other` has the same configuration as `self` except for the
    /// condition-unmet event.
    pub open spec fn same_except_unmet(&self, other: &Self) -> bool {
        &&& other.spec_prepare_failed_level() == self.spec_prepare_failed_level()
        &&& other.spec_prepare_failed_message() == self.spec_prepare_failed_message()
        &&& other.spec_prepare_commit_failed_level() == self.spec_prepare_commit_failed_level()
        &&& other.spec_prepare_commit_failed_message() == self.spec_prepare_commit_failed_message()
        &&& other.spec_prepare_rollback_failed_level() == self.spec_prepare_rollback_failed_level()
        &&& other.spec_prepare_rollback_failed_message() == self.spec_prepare_rollback_failed_message()
    }

    /// Whether `other` has the same configuration as `self` except for the
    /// prepare-failure event.
    pub open spec fn same_except_prepare(&self, other: &Self) -> bool {
        &&& other.spec_unmet_condition_level() == self.spec_unmet_condition_level()
        &&& other.spec_unmet_condition_message() == self.spec_unmet_condition_message()
        &&& other.spec_prepare_commit_failed_level() == self.spec_prepare_commit_failed_level()
        &&& other.spec_prepare_commit_failed_message() == self.spec_prepare_commit_failed_message()
        &&& other.spec_prepare_rollback_failed_level() == self.spec_prepare_rollback_failed_level()
        &&& other.spec_prepare_rollback_failed_message() == self.spec_prepare_rollback_failed_message()
    }

    /// Whether `other` has the same configuration as `self` except for the
    /// prepare-commit failure event.
    pub open spec fn same_except_commit(&self, other: &Self) -> bool {
        &&& other.spec_unmet_condition_level() == self.spec_unmet_condition_level()
        &&& other.spec_unmet_condition_message() == self.spec_unmet_condition_message()
        &&& other.spec_prepare_failed_level() == self.spec_prepare_failed_level()
        &&& other.spec_prepare_failed_message() == self.spec_prepare_failed_message()
        &&& other.spec_prepare_rollback_failed_level() == self.spec_prepare_rollback_failed_level()
        &&& other.spec_prepare_rollback_failed_message() == self.spec_prepare_rollback_failed_message()
    }

    /// Whether `other` has the same configuration as `self` except for the
    /// prepare-rollback failure event.
    pub open spec fn same_except_rollback(&self, other: &Self) -> bool {
        &&& other.spec_unmet_condition_level() == self.spec_unmet_condition_level()
        &&& other.spec_unmet_condition_message() == self.spec_unmet_condition_message()
        &&& other.spec_prepare_failed_level() == self.spec_prepare_failed_level()
        &&& other.spec_prepare_failed_message() == self.spec_prepare_failed_message()
        &&& other.spec_prepare_commit_failed_level() == self.spec_prepare_commit_failed_level()
        &&& other.spec_prepare_commit_failed_message() == self.spec_prepare_commit_failed_message()
    }

    /// Sets the level and line for unmet conditions; with `None` the event
    /// writes nothing but the line is kept for later.
    pub fn set_unmet_condition<M: Into<String>>(&mut self, level: Option<LogLevel>, message: M)
        ensures
            final(self).spec_unmet_condition_level() == level,
            converted_message(message, final(self).spec_unmet_condition_message()),
            old(self).same_except_unmet(&*final(self)),
    {
        self.unmet_condition_level = level;
        self.unmet_condition_message = message.into();
    }

    /// Disables logging for unmet conditions, keeping the stored line.
    pub fn disable_unmet_condition(&mut self)
        ensures
            final(self).spec_unmet_condition_level() is None,
            final(self).spec_unmet_condition_message() == old(self).spec_unmet_condition_message(),
            old(self).same_except_unmet(&*final(self)),
    {
        self.unmet_condition_level = None;
    }

    /// Sets the level and prefix for prepare-action failures.
    pub fn set_prepare_failure<M: Into<String>>(&mut self, level: Option<LogLevel>, message_prefix: M)
        ensures
            final(self).spec_prepare_failed_level() == level,
            converted_message(message_prefix, final(self).spec_prepare_failed_message()),
            old(self).same_except_prepare(&*final(self)),
    {
        self.prepare_failed_level = level;
        self.prepare_failed_message = message_prefix.into();
    }

    /// Disables logging for prepare-action failures, keeping the prefix.
    pub fn disable_prepare_failure(&mut self)
        ensures
            final(self).spec_prepare_failed_level() is None,
            final(self).spec_prepare_failed_message() == old(self).spec_prepare_failed_message(),
            old(self).same_except_prepare(&*final(self)),
    {
        self.prepare_failed_level = None;
    }

    /// Sets the level and prefix for prepare-commit failures.
    pub fn set_prepare_commit_failure<M: Into<String>>(&mut self, level: Option<LogLevel>, message_prefix: M)
        ensures
            final(self).spec_prepare_commit_failed_level() == level,
            converted_message(message_prefix, final(self).spec_prepare_commit_failed_message()),
            old(self).same_except_commit(&*final(self)),
    {
        self.prepare_commit_failed_level = level;
        self.prepare_commit_failed_message = message_prefix.into();
    }

    /// Disables logging for prepare-commit failures, keeping the prefix.
    pub fn disable_prepare_commit_failure(&mut self)
        ensures
            final(self).spec_prepare_commit_failed_level() is None,
            final(self).spec_prepare_commit_failed_message() == old(self).spec_prepare_commit_failed_message(),
            old(self).same_except_commit(&*final(self)),
    {
        self.prepare_commit_failed_level = None;
    }

    /// Sets the level and prefix for prepare-rollback failures.
    pub fn set_prepare_rollback_failure<M: Into<String>>(&mut self, level: Option<LogLevel>, message_prefix: M)
        ensures
            final(self).spec_prepare_rollback_failed_level() == level,
            converted_message(message_prefix, final(self).spec_prepare_rollback_failed_message()),
            old(self).same_except_rollback(&*final(self)),
    {
        self.prepare_rollback_failed_level = level;
        self.prepare_rollback_failed_message = message_prefix.into();
    }

    /// Disables logging for prepare-rollback failures, keeping the prefix.
    pub fn disable_prepare_rollback_failure(&mut self)
        ensures
            final(self).spec_prepare_rollback_failed_level() is None,
            final(self).spec_prepare_rollback_failed_message()
                == old(self).spec_prepare_rollback_failed_message(),
            old(self).same_except_rollback(&*final(self)),
    {
        self.prepare_rollback_failed_level = None;
    }

    /// The line to write for an unmet condition: its level and full text, or
    /// nothing when the event is disabled.
    pub fn unmet_condition_record(&self) -> (r: Option<(LogLevel, &str)>)
        ensures
            match self.spec_unmet_condition_level() {
                Some(level) => r matches Some(line) && line.0 == level && line.1@
                    == self.spec_unmet_condition_message()@,
                None => r is None,
            },
    {
        match self.unmet_condition_level {
            Some(level) => Some((level, self.unmet_condition_message.as_str())),
            None => None,
        }
    }

    /// The line to write for a prepare failure: its level and the prefix
    /// placed before the error, or nothing when the event is disabled.
    pub fn prepare_failed_record(&self) -> (r: Option<(LogLevel, &str)>)
        ensures
            match self.spec_prepare_failed_level() {
                Some(level) => r matches Some(line) && line.0 == level && line.1@
                    == self.spec_prepare_failed_message()@,
                None => r is None,
            },
    {
        match self.prepare_failed_level {
            Some(level) => Some((level, self.prepare_failed_message.as_str())),
            None => None,
        }
    }

    /// The line to write for a prepare-commit failure: its level and prefix,
    /// or nothing when the event is disabled.
    pub fn prepare_commit_failed_record(&self) -> (r: Option<(LogLevel, &str)>)
        ensures
            match self.spec_prepare_commit_failed_level() {
                Some(level) => r matches Some(line) && line.0 == level && line.1@
                    == self.spec_prepare_commit_failed_message()@,
                None => r is None,
            },
    {
        match self.prepare_commit_failed_level {
            Some(level) => Some((level, self.prepare_commit_failed_message.as_str())),
            None => None,
        }
    }

    /// The line to write for a prepare-rollback failure: its level and
    /// prefix, or nothing when the event is disabled.
    pub fn prepare_rollback_failed_record(&self) -> (r: Option<(LogLevel, &str)>)
        ensures
            match self.spec_prepare_rollback_failed_level() {
                Some(level) => r matches Some(line) && line.0 == level && line.1@
                    == self.spec_prepare_rollback_failed_message()@,
                None => r is None,
            },
    {
        match self.prepare_rollback_failed_level {
            Some(level) => Some((level, self.prepare_rollback_failed_message.as_str())),
            None => None,
        }
    }
}

impl Clone for ExecutionLogger {
    /// Copies every level and message.
    fn clone(&self) -> (r: Self)
        ensures
            r == *self,
    {
        ExecutionLogger {
            unmet_condition_level: self.unmet_condition_level,
            unmet_condition_message: self.unmet_condition_message.clone(),
            prepare_failed_level: self.prepare_failed_level,
            prepare_failed_message: self.prepare_failed_message.clone(),
            prepare_commit_failed_level: self.prepare_commit_failed_level,
            prepare_commit_failed_message: self.prepare_commit_failed_message.clone(),
            prepare_rollback_failed_level: self.prepare_rollback_failed_level,
            prepare_rollback_failed_message: self.prepare_rollback_failed_message.clone(),
        }
    }
}

impl Default for ExecutionLogger {
    /// The configuration used when no logging override is applied: unmet
    /// conditions are silent with an empty line; prepare, prepare-commit and
    /// prepare-rollback failures are logged at `Error` with the prefixes
    /// `"Prepare action failed"`, `"Prepare commit action failed"` and
    /// `"Prepare rollback action failed"`.
    fn default() -> (r: Self)
        ensures
            r.is_default(),
    {
        let prepare = "Prepare action failed".to_string();
        let commit = "Prepare commit action failed".to_string();
        let rollback = "Prepare rollback action failed".to_string();
        proof {
            vstd::string::to_string_from_display_ensures_for_str("Prepare action failed", prepare);
            vstd::string::to_string_from_display_ensures_for_str("Prepare commit action failed", commit);
            vstd::string::to_string_from_display_ensures_for_str("Prepare rollback action failed", rollback);
        }
        ExecutionLogger {
            unmet_condition_level: None,
            unmet_condition_message: String::new(),
            prepare_failed_level: Some(LogLevel::Error),
            prepare_failed_message: prepare,
            prepare_commit_failed_level: Some(LogLevel::Error),
            prepare_commit_failed_message: commit,
            prepare_rollback_failed_level: Some(LogLevel::Error),
            prepare_rollback_failed_message: rollback,
        }
    }
}

} // verus!
