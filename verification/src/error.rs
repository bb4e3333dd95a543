//! Errors of the memory-structure checks.

use vstd::prelude::*;

use crate::text::string_from;

verus! {

/// The class of a failure, as the caller distinguishes them.
#[derive(Debug, Clone, Copy, PartialEq, Eq, Structural)]
pub enum ErrorKind {
    /// Something looked for is not there.
    NotFound,
    /// A value read does not pass its sanity checks.
    InvalidData,
    /// An argument is unusable.
    InvalidInput,
    /// The game state moved on while it was read; resolving it again may help.
    Interrupted,
}

/// A failed check: its class and a message.
#[derive(Debug, Clone)]
pub struct ProbeError {
    pub kind: ErrorKind,
    pub message: String,
}

/// `ProbeError` with its message as a character sequence.
pub struct ProbeErrorModel {
    pub kind: ErrorKind,
    pub message: Seq<char>,
}

impl View for ProbeError {
    type V = ProbeErrorModel;

    open spec fn view(&self) -> ProbeErrorModel {
        ProbeErrorModel { kind: self.kind, message: self.message@ }
    }
}

pub open spec fn probe_error(kind: ErrorKind, message: Seq<char>) -> ProbeErrorModel {
    ProbeErrorModel { kind, message }
}

/// A result with its error as a model.
pub open spec fn result_view<T>(r: Result<T, ProbeError>) -> Result<T, ProbeErrorModel> {
    match r {
        Ok(v) => Ok(v),
        Err(e) => Err(e@),
    }
}

/// An error with a fixed message.
pub fn error(kind: ErrorKind, message: &str) -> (e: ProbeError)
    ensures
        e@ == probe_error(kind, message@),
{
    ProbeError { kind, message: string_from(message) }
}

} // verus!
