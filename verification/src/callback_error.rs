//! Callback error information for double-checked execution.

use vstd::prelude::*;
use vstd::string::StringExecFns;

verus! {

/// Common error information for prepare lifecycle callbacks.
///
/// A semantic callback type label is kept together with the message so that
/// callers can classify failures without string matching.
#[derive(Debug)]
pub struct CallbackError {
    /// Error message produced by the callback.
    message: String,
    /// Callback type label, when available.
    callback_type: Option<&'static str>,
}

/// The characters of an optional label.
pub open spec fn opt_str_chars(label: Option<&'static str>) -> Option<Seq<char>> {
    match label {
        Some(l) => Some(l@),
        None => None,
    }
}

impl CallbackError {
    /// The stored message.
    pub closed spec fn spec_message(&self) -> String {
        self.message
    }

    /// The stored callback type label.
    pub closed spec fn spec_callback_type(&self) -> Option<&'static str> {
        self.callback_type
    }

    /// The text shown for this error: `"{label}: {message}"` with a label,
    /// or the message alone.
    pub open spec fn spec_display(&self) -> Seq<char> {
        match self.spec_callback_type() {
            Some(label) => label@ + seq![':', ' '] + self.spec_message()@,
            None => self.spec_message()@,
        }
    }

    /// Builds a callback error without type metadata; the message is the
    /// display text of `error`.
    pub fn from_display<T: core::fmt::Display>(error: T) -> (r: Self)
        ensures
            vstd::string::to_string_from_display_ensures::<T>(&error, r.spec_message()),
            r.spec_callback_type() is None,
    {
        CallbackError { message: error.to_string(), callback_type: None }
    }

    /// Builds a callback error with an explicit callback type label, such as
    /// `"prepare"` or `"prepare_rollback"`; the message is the display text of
    /// `error`.
    pub fn with_callback_type<T: core::fmt::Display>(callback_type: &'static str, error: T) -> (r: Self)
        ensures
            vstd::string::to_string_from_display_ensures::<T>(&error, r.spec_message()),
            r.spec_callback_type() == Some(callback_type),
    {
        CallbackError { message: error.to_string(), callback_type: Some(callback_type) }
    }

    /// Builds an untyped callback error whose message is `message` itself.
    pub fn from_message(message: String) -> (r: Self)
        ensures
            r.spec_message() == message,
            r.spec_callback_type() is None,
    {
        CallbackError { message, callback_type: None }
    }

    /// Returns the raw message.
    pub fn message(&self) -> (r: &str)
        ensures
            r@ == self.spec_message()@,
    {
        self.message.as_str()
    }

    /// Returns the callback type label, when available.
    pub fn callback_type(&self) -> (r: Option<&'static str>)
        ensures
            r == self.spec_callback_type(),
    {
        self.callback_type
    }

    /// Returns whether the callback type label is set.
    pub fn is_typed(&self) -> (r: bool)
        ensures
            r <==> self.spec_callback_type() is Some,
    {
        self.callback_type.is_some()
    }

    /// Formats this error for user-facing diagnostics: the label and message
    /// separated by `": "`, or the message alone.
    pub fn to_display_string(&self) -> (r: String)
        ensures
            r@ == self.spec_display(),
    {
        match self.callback_type {
            Some(label) => {
                let mut text = label.to_string();
                proof {
                    vstd::string::to_string_from_display_ensures_for_str(label, text);
                }
                text.append(": ");
                text.append(self.message.as_str());
                proof {
                    reveal_strlit(": ");
                    assert(text@ =~= self.spec_display());
                }
                text
            },
            None => self.message.clone(),
        }
    }
}

impl Clone for CallbackError {
    /// Copies the message and keeps the callback type label.
    fn clone(&self) -> (r: Self)
        ensures
            r.spec_message() == self.spec_message(),
            r.spec_callback_type() == self.spec_callback_type(),
    {
        CallbackError { message: self.message.clone(), callback_type: self.callback_type }
    }
}

} // verus!
