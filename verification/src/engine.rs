//! The session's model of the compression engine's call interface: the
//! per-call flush directives and the status codes the engine reports, both
//! as plain values with their zlib integer encodings.

use vstd::prelude::*;

verus! {

/// Per-call instruction to the engine: how eagerly to emit output and
/// whether to terminate the stream. A directive is not stored by the
/// session; it applies to one `write` call.
#[derive(Copy, Clone, PartialEq, Eq, Structural, Debug)]
pub enum Flush {
    NoFlush,
    PartialFlush,
    SyncFlush,
    FullFlush,
    Finish,
    Block,
    Trees,
}

/// The integer zlib's `deflate` expects for each flush directive.
pub open spec fn spec_flush_code(f: Flush) -> int {
    match f {
        Flush::NoFlush => 0,
        Flush::PartialFlush => 1,
        Flush::SyncFlush => 2,
        Flush::FullFlush => 3,
        Flush::Finish => 4,
        Flush::Block => 5,
        Flush::Trees => 6,
    }
}

impl Flush {
    /// The integer to pass to the engine for this directive.
    pub fn code(self) -> (c: i32)
        ensures
            c == spec_flush_code(self),
    {
        match self {
            Flush::NoFlush => 0,
            Flush::PartialFlush => 1,
            Flush::SyncFlush => 2,
            Flush::FullFlush => 3,
            Flush::Finish => 4,
            Flush::Block => 5,
            Flush::Trees => 6,
        }
    }
}

/// Every answer an engine call can give, as the session reads it.
///
/// `Progress` is zlib's `Z_OK`: the call did some work and the stream is
/// healthy. `Unexpected` stands for any code outside the documented domain.
#[derive(Copy, Clone, PartialEq, Eq, Structural, Debug)]
pub enum Status {
    Progress,
    StreamEnd,
    MemError,
    StreamError,
    VersionError,
    DataError,
    BufError,
    Unexpected,
}

/// The status named by a raw zlib return code: 0 is `Z_OK`, 1 is
/// `Z_STREAM_END`, and the error codes run from -2 (`Z_STREAM_ERROR`)
/// to -6 (`Z_VERSION_ERROR`). Anything else is out of the documented
/// domain.
pub open spec fn spec_status_of_code(code: int) -> Status {
    if code == 0 {
        Status::Progress
    } else if code == 1 {
        Status::StreamEnd
    } else if code == -2 {
        Status::StreamError
    } else if code == -3 {
        Status::DataError
    } else if code == -4 {
        Status::MemError
    } else if code == -5 {
        Status::BufError
    } else if code == -6 {
        Status::VersionError
    } else {
        Status::Unexpected
    }
}

/// Translate a raw engine return code into the status it names.
pub fn status_of_code(code: i32) -> (s: Status)
    ensures
        s == spec_status_of_code(code as int),
{
    if code == 0 {
        Status::Progress
    } else if code == 1 {
        Status::StreamEnd
    } else if code == -2 {
        Status::StreamError
    } else if code == -3 {
        Status::DataError
    } else if code == -4 {
        Status::MemError
    } else if code == -5 {
        Status::BufError
    } else if code == -6 {
        Status::VersionError
    } else {
        Status::Unexpected
    }
}

} // verus!
