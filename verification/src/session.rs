//! The streaming session state machine.
//!
//! A [`Deflate`] session owns the configuration and the two lifecycle
//! flags of one engine instance. The engine calls themselves — raw,
//! stateful, and outside this crate — are made by an unverified driver;
//! the session decides everything around them: when the engine must be
//! initialized (exactly once, lazily), what each reported status means,
//! how many scratch-buffer bytes go to the sink after a step, whether the
//! driving loop must run again, and how finalization ends. Each decision
//! is a function from the session state and the reported status to the
//! next state and the action owed, with an exact contract.
//!
//! Protocol, as the driver must follow it:
//!
//! 1. While [`Deflate::init_request`] returns a configuration, call the
//!    engine's initialization entry point with it and report the status
//!    through [`Deflate::apply_init`].
//! 2. For a write, present the whole input to the engine, then repeatedly
//!    step the engine over a fresh scratch buffer and report each status
//!    through [`Deflate::apply_step`], emitting and looping as the
//!    returned [`StepAction`] directs, until it ends the loop.
//! 3. To finalize, release engine resources exactly when
//!    [`Deflate::end_request`] says so, and hand the resulting status to
//!    [`Deflate::finish`], which consumes the session.
//!
//! A failed initialization, dictionary call or step leaves the session
//! unusable for further writes: the engine's cursors may be inconsistent,
//! and no retry is attempted anywhere.

use vstd::prelude::*;

use crate::engine::Status;
use crate::error::DeflateError;
use crate::options::Options;

verus! {

/// What the driver owes the engine after one step, as decided by
/// [`Deflate::apply_step`].
#[derive(Copy, Clone, PartialEq, Eq, Structural, Debug)]
pub enum StepAction {
    /// Hand the first `count` scratch-buffer bytes to the sink. If `again`
    /// holds, the engine has more output pending: present the scratch
    /// buffer anew and step once more; otherwise this write is complete.
    Emit { count: usize, again: bool },
    /// The step failed; the session is no longer usable for writes.
    Fail(DeflateError),
}

/// One streaming compression session: the state machine that drives one
/// engine instance from creation to finalization.
///
/// `initialized` is set by the one successful engine initialization;
/// `finished` is set once the engine reports its stream ended, and never
/// reverts. Finalization consumes the session by value, so no operation —
/// finalization included — can follow it: use-after-release is
/// unrepresentable, not merely unchecked.
pub struct Deflate {
    pub options: Options,
    pub initialized: bool,
    pub finished: bool,
}

/// The outcome of an engine-initialization status: success, or the error
/// the status maps to. An out-of-range option value surfaces here as the
/// engine's rejection, never as a silent clamp.
pub open spec fn spec_init_outcome(status: Status) -> Result<(), DeflateError> {
    match status {
        Status::Progress => Ok(()),
        Status::MemError => Err(DeflateError::OutOfMemory),
        Status::StreamError => Err(DeflateError::InvalidParameter),
        Status::VersionError => Err(DeflateError::IncompatibleVersion),
        _ => Err(DeflateError::Unexpected),
    }
}

/// The outcome of a set-dictionary status.
pub open spec fn spec_dictionary_outcome(status: Status) -> Result<(), DeflateError> {
    match status {
        Status::Progress => Ok(()),
        Status::StreamError => Err(DeflateError::InvalidParameter),
        _ => Err(DeflateError::Unexpected),
    }
}

/// The action one step status commands, given the scratch-buffer length
/// and the output space the engine reports still free in it. On progress
/// or stream end, the bytes written this iteration — length minus free
/// space — go to the sink; the loop runs again exactly when the engine
/// filled the buffer completely without ending the stream.
pub open spec fn spec_step_action(status: Status, buffer_len: int, avail_out: int) -> StepAction {
    match status {
        Status::Progress => StepAction::Emit {
            count: (buffer_len - avail_out) as usize,
            again: avail_out == 0,
        },
        Status::StreamEnd => StepAction::Emit { count: (buffer_len - avail_out) as usize, again: false },
        Status::StreamError => StepAction::Fail(DeflateError::InconsistentStream),
        Status::BufError => StepAction::Fail(DeflateError::NoProgress),
        _ => StepAction::Fail(DeflateError::Unexpected),
    }
}

/// The outcome of finalization: `end_status` is the status of the
/// resource-release call, or nothing when the engine was never
/// initialized and there is nothing to release. An inconsistent-state
/// answer to the release call is treated as success: the engine frees no
/// resources on that path, so nothing leaks.
pub open spec fn spec_finish_outcome(end_status: Option<Status>) -> Result<(), DeflateError> {
    match end_status {
        Option::Some(Status::Progress) => Ok(()),
        Option::Some(Status::StreamError) => Ok(()),
        Option::Some(Status::DataError) => Err(DeflateError::StreamFreedEarly),
        Option::Some(_) => Err(DeflateError::Unexpected),
        Option::None => Ok(()),
    }
}

/// Law: a configuration the engine rejects at initialization — an
/// out-of-range level among them — surfaces as an invalid-input error
/// carrying the engine's rejection, never as silent success or a clamped
/// value; and a resource failure there is not blamed on the input.
pub proof fn lemma_init_rejection_taxonomy()
    ensures
        spec_init_outcome(Status::StreamError) == Result::<(), DeflateError>::Err(
            DeflateError::InvalidParameter,
        ),
        crate::error::spec_error_kind(DeflateError::InvalidParameter) == crate::error::ErrorKind::InvalidInput,
        spec_init_outcome(Status::MemError) == Result::<(), DeflateError>::Err(
            DeflateError::OutOfMemory,
        ),
        crate::error::spec_error_kind(DeflateError::OutOfMemory) == crate::error::ErrorKind::Other,
        forall|status: Status| spec_init_outcome(status) is Ok <==> status is Progress,
{
}

/// Law: a step in which the engine wrote nothing and reported progress
/// with the whole buffer still free ends the write successfully, emits
/// nothing, and — since a progress step also leaves every session field
/// unchanged — cannot corrupt subsequent writes. This is the session's
/// half of empty-input idempotence; whether an empty write earns such a
/// status is the engine's side.
pub proof fn lemma_empty_step_is_no_op(buffer_len: int)
    ensures
        spec_step_action(Status::Progress, buffer_len, buffer_len) == (StepAction::Emit {
            count: 0,
            again: buffer_len == 0,
        }),
{
}

impl Deflate {
    /// A fresh session over the given configuration. The engine is not
    /// touched: initialization happens lazily, at the first write or
    /// dictionary call.
    pub fn new(options: Options) -> (d: Deflate)
        ensures
            d.options == options,
            !d.initialized,
            !d.finished,
    {
        Deflate { options, initialized: false, finished: false }
    }

    /// Lazy, idempotent initialization: the configuration to initialize
    /// the engine with, or nothing when the engine is already initialized
    /// — a repeated initialization request is a no-op success and reaches
    /// the engine at most once per session.
    pub fn init_request(&self) -> (r: Option<Options>)
        ensures
            r == (if self.initialized {
                Option::<Options>::None
            } else {
                Option::Some(self.options)
            }),
    {
        if self.initialized {
            None
        } else {
            Some(self.options)
        }
    }

    /// Record the status of the one engine-initialization call. The
    /// session becomes initialized exactly when the engine reported
    /// success; every failure status maps to the documented error.
    pub fn apply_init(&mut self, status: Status) -> (r: Result<(), DeflateError>)
        requires
            !old(self).initialized,
        ensures
            final(self).options == old(self).options,
            final(self).finished == old(self).finished,
            final(self).initialized == (status is Progress),
            r == spec_init_outcome(status),
    {
        match status {
            Status::Progress => {
                self.initialized = true;
                Ok(())
            },
            Status::MemError => Err(DeflateError::OutOfMemory),
            Status::StreamError => Err(DeflateError::InvalidParameter),
            Status::VersionError => Err(DeflateError::IncompatibleVersion),
            _ => Err(DeflateError::Unexpected),
        }
    }

    /// The outcome of handing a preset dictionary to the engine, from the
    /// status the engine reported. Valid only once initialized.
    pub fn apply_dictionary(&self, status: Status) -> (r: Result<(), DeflateError>)
        requires
            self.initialized,
        ensures
            r == spec_dictionary_outcome(status),
    {
        match status {
            Status::Progress => Ok(()),
            Status::StreamError => Err(DeflateError::InvalidParameter),
            _ => Err(DeflateError::Unexpected),
        }
    }

    /// One turn of the engine-driving loop: from the status of a step
    /// over a scratch buffer of `buffer_len` bytes, of which the engine
    /// reports `avail_out` still free, decide what the driver owes the
    /// sink and whether the loop runs again. The stream-end status —
    /// reachable only under a finishing flush — marks the session
    /// finished, and `finished` never reverts.
    pub fn apply_step(&mut self, status: Status, buffer_len: usize, avail_out: usize)
        -> (a: StepAction)
        requires
            old(self).initialized,
            avail_out <= buffer_len,
        ensures
            final(self).options == old(self).options,
            final(self).initialized,
            final(self).finished == (old(self).finished || status is StreamEnd),
            a == spec_step_action(status, buffer_len as int, avail_out as int),
    {
        match status {
            Status::Progress => StepAction::Emit {
                count: buffer_len - avail_out,
                again: avail_out == 0,
            },
            Status::StreamEnd => {
                self.finished = true;
                StepAction::Emit { count: buffer_len - avail_out, again: false }
            },
            Status::StreamError => StepAction::Fail(DeflateError::InconsistentStream),
            Status::BufError => StepAction::Fail(DeflateError::NoProgress),
            _ => StepAction::Fail(DeflateError::Unexpected),
        }
    }

    /// Whether finalization must release engine resources: true exactly
    /// when the engine was initialized. A session that never reached a
    /// successful initialization has nothing to release.
    pub fn end_request(&self) -> (b: bool)
        ensures
            b == self.initialized,
    {
        self.initialized
    }

    /// Consume the session. `end_status` is the status of the
    /// resource-release call the driver made exactly when
    /// [`Deflate::end_request`] demanded one. A session that never saw a
    /// write finalizes as a plain success, the sink untouched.
    ///
    /// Policy: no implicit final flush happens here. A session whose last
    /// write did not drive the stream to its end releases engine
    /// resources anyway and yields a truncated, though not erroring,
    /// stream; callers owed a complete stream must end with a finishing
    /// write and may consult `finished` before finalizing.
    pub fn finish(self, end_status: Option<Status>) -> (r: Result<(), DeflateError>)
        requires
            end_status is Some <==> self.initialized,
        ensures
            r == spec_finish_outcome(end_status),
            !self.initialized ==> r == Result::<(), DeflateError>::Ok(()),
    {
        match end_status {
            None => Ok(()),
            Some(status) => match status {
                Status::Progress => Ok(()),
                Status::StreamError => Ok(()),
                Status::DataError => Err(DeflateError::StreamFreedEarly),
                _ => Err(DeflateError::Unexpected),
            },
        }
    }
}

} // verus!
