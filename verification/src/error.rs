//! The session's error taxonomy: every engine failure is translated into
//! one of a fixed set of errors, each belonging to one of two kinds.

use vstd::prelude::*;

verus! {

/// The two kinds of session failure.
///
/// `InvalidInput` marks a caller- or configuration-level contract violation:
/// bad option values, an incompatible engine version, an inconsistent stream
/// state, or a premature resource release. `Other` marks a resource or
/// unexpected failure: memory exhaustion, a no-progress condition, or any
/// status outside the documented domain.
#[derive(Copy, Clone, PartialEq, Eq, Structural, Debug)]
pub enum ErrorKind {
    InvalidInput,
    Other,
}

/// Every error a session operation can report.
#[derive(Copy, Clone, PartialEq, Eq, Structural, Debug)]
pub enum DeflateError {
    /// The engine could not allocate its internal state.
    OutOfMemory,
    /// The engine rejected a parameter, such as an out-of-range level.
    InvalidParameter,
    /// The engine linked at run time does not match the compatibility
    /// token it was initialized with.
    IncompatibleVersion,
    /// The engine found its stream state inconsistent during a step.
    InconsistentStream,
    /// The engine could make no progress; under this session's driving
    /// protocol this marks a contract failure, not a recoverable state.
    NoProgress,
    /// Engine resources were released before the stream reached its end.
    StreamFreedEarly,
    /// The engine answered with a status outside the documented domain.
    Unexpected,
}

/// The kind each error belongs to.
pub open spec fn spec_error_kind(e: DeflateError) -> ErrorKind {
    match e {
        DeflateError::OutOfMemory => ErrorKind::Other,
        DeflateError::InvalidParameter => ErrorKind::InvalidInput,
        DeflateError::IncompatibleVersion => ErrorKind::InvalidInput,
        DeflateError::InconsistentStream => ErrorKind::InvalidInput,
        DeflateError::NoProgress => ErrorKind::Other,
        DeflateError::StreamFreedEarly => ErrorKind::InvalidInput,
        DeflateError::Unexpected => ErrorKind::Other,
    }
}

/// The message each error carries.
pub open spec fn spec_error_message(e: DeflateError) -> Seq<char> {
    match e {
        DeflateError::OutOfMemory => "Out of memory"@,
        DeflateError::InvalidParameter => "Invalid parameter"@,
        DeflateError::IncompatibleVersion => "Incompatible version"@,
        DeflateError::InconsistentStream => "Inconsistent stream state"@,
        DeflateError::NoProgress => "No progress possible"@,
        DeflateError::StreamFreedEarly => "Stream freed early"@,
        DeflateError::Unexpected => "Unexpected error"@,
    }
}

impl DeflateError {
    /// The kind this error belongs to.
    pub fn kind(self) -> (k: ErrorKind)
        ensures
            k == spec_error_kind(self),
    {
        match self {
            DeflateError::OutOfMemory => ErrorKind::Other,
            DeflateError::InvalidParameter => ErrorKind::InvalidInput,
            DeflateError::IncompatibleVersion => ErrorKind::InvalidInput,
            DeflateError::InconsistentStream => ErrorKind::InvalidInput,
            DeflateError::NoProgress => ErrorKind::Other,
            DeflateError::StreamFreedEarly => ErrorKind::InvalidInput,
            DeflateError::Unexpected => ErrorKind::Other,
        }
    }

    /// The human-readable message this error carries.
    pub fn message(self) -> (m: &'static str)
        ensures
            m@ == spec_error_message(self),
    {
        match self {
            DeflateError::OutOfMemory => "Out of memory",
            DeflateError::InvalidParameter => "Invalid parameter",
            DeflateError::IncompatibleVersion => "Incompatible version",
            DeflateError::InconsistentStream => "Inconsistent stream state",
            DeflateError::NoProgress => "No progress possible",
            DeflateError::StreamFreedEarly => "Stream freed early",
            DeflateError::Unexpected => "Unexpected error",
        }
    }
}

} // verus!
