//! Error taxonomy of the engine boundary.
//!
//! Three kinds, one per failure phase: `InitError` when constructing an
//! engine fails, `ExecError` when evaluating script or building a
//! script-native value fails, and `ConversionError` when converting a value
//! back to a host primitive fails.

use vstd::prelude::*;

verus! {

/// A structured diagnostic for an engine-level execution fault.
///
/// `description` is the engine's own description of the fault. When the
/// fault was an uncaught script exception, `exception` carries the caught
/// exception payload, which is richer than the generic description and must
/// not be summarized away.
#[derive(Debug)]
pub struct ExecDiagnostic {
    /// The engine's description of the fault.
    pub description: String,
    /// The caught exception payload, present exactly when the fault was an
    /// uncaught script exception.
    pub exception: Option<String>,
}

/// The error type of every fallible operation at the engine boundary.
#[derive(Debug)]
pub enum Error {
    /// Runtime or context allocation failed while constructing an engine.
    InitError(String),
    /// Parse failure, uncaught script exception, missing or non-callable
    /// global, or any other engine-level execution fault.
    ExecError(ExecDiagnostic),
    /// A value was not coercible to the requested host type, or resolving
    /// its persisted handle failed.
    ConversionError(String),
}

/// The characters of the flattened message for an execution diagnostic: the
/// engine's description alone for a structural fault, and the description
/// followed by `": "` and the caught exception payload for an uncaught
/// exception.
pub open spec fn exec_message(d: ExecDiagnostic) -> Seq<char> {
    match d.exception {
        Some(detail) => d.description@ + ": "@ + detail@,
        None => d.description@,
    }
}

/// The flattened human-readable message of an error: for an execution
/// fault, its diagnostic's message; for the other kinds, the description
/// they carry.
pub open spec fn message_of(e: Error) -> Seq<char> {
    match e {
        Error::InitError(m) => m@,
        Error::ExecError(d) => exec_message(d),
        Error::ConversionError(m) => m@,
    }
}

/// Flattens an execution diagnostic into one human-readable message,
/// keeping the caught-exception payload distinct from the generic
/// description.
pub fn error_to_string(d: &ExecDiagnostic) -> (r: String)
    ensures
        r@ == exec_message(*d),
{
    match &d.exception {
        Some(detail) => {
            let mut r = d.description.clone();
            r.append(": ");
            r.append(detail.as_str());
            r
        },
        None => d.description.clone(),
    }
}

impl Error {
    /// The flattened human-readable message of this error.
    pub fn message(&self) -> (r: String)
        ensures
            r@ == message_of(*self),
    {
        match self {
            Error::InitError(m) => m.clone(),
            Error::ExecError(d) => error_to_string(d),
            Error::ConversionError(m) => m.clone(),
        }
    }
}

/// Turns the outcome of resolving and coercing a value into the outcome of
/// the conversion operation: a coerced string is returned as it is, and a
/// fault becomes exactly `ConversionError` carrying the diagnostic's
/// flattened message.
pub fn conversion_outcome(raw: Result<String, ExecDiagnostic>) -> (r: Result<String, Error>)
    ensures
        raw matches Ok(s) ==> r == Ok::<String, Error>(s),
        raw matches Err(d) ==> (r matches Err(e) && e matches Error::ConversionError(m)
            && m@ == exec_message(d)),
{
    match raw {
        Ok(s) => Ok(s),
        Err(d) => Err(Error::ConversionError(error_to_string(&d))),
    }
}

} // verus!
