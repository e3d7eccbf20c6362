//! Errors that are passed through the standard I/O error type.

use vstd::prelude::*;

use crate::yaml::messages::{debug_quoted, debug_text};

verus! {

/// A poisoned lock, by its message: the message is kept as `{:?}` writes it.
#[derive(Debug)]
pub struct PoisonErrorWrapper(pub String);

impl PoisonErrorWrapper {
    /// Wraps the message of a poisoned lock.
    pub fn from_message(message: &str) -> (r: PoisonErrorWrapper)
        ensures
            r.0@ == debug_quoted(message@),
    {
        PoisonErrorWrapper(debug_text(message))
    }

    /// The text shown for the error.
    pub fn text(&self) -> (r: &str)
        ensures
            r@ == self.0@,
    {
        self.0.as_str()
    }
}

/// The logging system's refusal of a second logger.
#[verifier::external_type_specification]
#[verifier::external_body]
pub struct ExSetLoggerError(log::SetLoggerError);

/// A refused logger installation.
#[derive(Debug)]
pub struct ErrorWrapper(pub log::SetLoggerError);

/// Calls `log::SetLoggerError`'s `Display`, which writes a fixed explanation.
#[verifier::external_body]
fn set_logger_error_text(error: &log::SetLoggerError) -> (r: String)
    ensures
        r@ == "attempted to set a logger after the logging system was already initialized"@,
{
    error.to_string()
}

impl ErrorWrapper {
    /// The text shown for the error.
    pub fn text(&self) -> (r: String)
        ensures
            r@ == "attempted to set a logger after the logging system was already initialized"@,
    {
        set_logger_error_text(&self.0)
    }
}

} // verus!
