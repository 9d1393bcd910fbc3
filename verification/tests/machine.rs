//! Unit tests of the session state machine: builder defaults, code
//! translations, the error taxonomy, and every decision the session makes
//! from a reported engine status.

use deflate_stream::Deflate;
use deflate_stream::DeflateError;
use deflate_stream::ErrorKind;
use deflate_stream::Flush;
use deflate_stream::Options;
use deflate_stream::OptionsBuilder;
use deflate_stream::Status;
use deflate_stream::StepAction;

fn default_options() -> Options {
    OptionsBuilder::new().finish()
}

fn initialized_session() -> Deflate {
    let mut session = Deflate::new(default_options());
    assert!(session.init_request().is_some());
    assert_eq!(session.apply_init(Status::Progress), Ok(()));
    session
}

#[test]
fn builder_defaults() {
    let options = OptionsBuilder::new().finish();
    assert_eq!(options.level, -1);
    assert_eq!(options.method, 8);
    assert_eq!(options.window_bits, 15);
    assert_eq!(options.mem_level, 8);
    assert_eq!(options.strategy, 0);
}

#[test]
fn builder_set_level_overrides_only_level() {
    let options = OptionsBuilder::new().set_level(9).finish();
    assert_eq!(options.level, 9);
    assert_eq!(options.method, 8);
    assert_eq!(options.window_bits, 15);
    assert_eq!(options.mem_level, 8);
    assert_eq!(options.strategy, 0);
}

#[test]
fn flush_codes_match_zlib() {
    assert_eq!(Flush::NoFlush.code(), 0);
    assert_eq!(Flush::PartialFlush.code(), 1);
    assert_eq!(Flush::SyncFlush.code(), 2);
    assert_eq!(Flush::FullFlush.code(), 3);
    assert_eq!(Flush::Finish.code(), 4);
    assert_eq!(Flush::Block.code(), 5);
    assert_eq!(Flush::Trees.code(), 6);
}

#[test]
fn status_of_code_covers_documented_domain() {
    assert_eq!(deflate_stream::engine::status_of_code(0), Status::Progress);
    assert_eq!(deflate_stream::engine::status_of_code(1), Status::StreamEnd);
    assert_eq!(deflate_stream::engine::status_of_code(-2), Status::StreamError);
    assert_eq!(deflate_stream::engine::status_of_code(-3), Status::DataError);
    assert_eq!(deflate_stream::engine::status_of_code(-4), Status::MemError);
    assert_eq!(deflate_stream::engine::status_of_code(-5), Status::BufError);
    assert_eq!(deflate_stream::engine::status_of_code(-6), Status::VersionError);
    assert_eq!(deflate_stream::engine::status_of_code(2), Status::Unexpected);
    assert_eq!(deflate_stream::engine::status_of_code(-1), Status::Unexpected);
    assert_eq!(deflate_stream::engine::status_of_code(7), Status::Unexpected);
}

#[test]
fn error_kinds_follow_taxonomy() {
    assert_eq!(DeflateError::OutOfMemory.kind(), ErrorKind::Other);
    assert_eq!(DeflateError::InvalidParameter.kind(), ErrorKind::InvalidInput);
    assert_eq!(DeflateError::IncompatibleVersion.kind(), ErrorKind::InvalidInput);
    assert_eq!(DeflateError::InconsistentStream.kind(), ErrorKind::InvalidInput);
    assert_eq!(DeflateError::NoProgress.kind(), ErrorKind::Other);
    assert_eq!(DeflateError::StreamFreedEarly.kind(), ErrorKind::InvalidInput);
    assert_eq!(DeflateError::Unexpected.kind(), ErrorKind::Other);
}

#[test]
fn error_messages_are_exact() {
    assert_eq!(DeflateError::OutOfMemory.message(), "Out of memory");
    assert_eq!(DeflateError::InvalidParameter.message(), "Invalid parameter");
    assert_eq!(DeflateError::IncompatibleVersion.message(), "Incompatible version");
    assert_eq!(DeflateError::InconsistentStream.message(), "Inconsistent stream state");
    assert_eq!(DeflateError::NoProgress.message(), "No progress possible");
    assert_eq!(DeflateError::StreamFreedEarly.message(), "Stream freed early");
    assert_eq!(DeflateError::Unexpected.message(), "Unexpected error");
}

#[test]
fn init_happens_at_most_once() {
    let mut session = Deflate::new(default_options());
    assert!(!session.initialized);
    assert_eq!(session.init_request(), Some(default_options()));
    assert_eq!(session.apply_init(Status::Progress), Ok(()));
    assert!(session.initialized);
    // A second initialization request asks nothing of the engine.
    assert_eq!(session.init_request(), None);
    // Nor does one after further engine work.
    let action = session.apply_step(Status::Progress, 1024, 1024);
    assert_eq!(action, StepAction::Emit { count: 0, again: false });
    assert_eq!(session.init_request(), None);
}

#[test]
fn init_out_of_range_level_is_invalid_input() {
    // The engine rejects an out-of-range level with its stream-error
    // status; the session must surface that as invalid input, not clamp.
    let options = OptionsBuilder::new().set_level(42).finish();
    let mut session = Deflate::new(options);
    assert_eq!(session.init_request(), Some(options));
    let outcome = session.apply_init(Status::StreamError);
    assert_eq!(outcome, Err(DeflateError::InvalidParameter));
    assert_eq!(outcome.unwrap_err().kind(), ErrorKind::InvalidInput);
    assert!(!session.initialized);
    // The session still presents an initialization request: nothing was
    // initialized by the failed attempt.
    assert_eq!(session.init_request(), Some(options));
}

#[test]
fn init_failure_statuses_map_exactly() {
    let mut session = Deflate::new(default_options());
    assert_eq!(session.apply_init(Status::MemError), Err(DeflateError::OutOfMemory));
    assert!(!session.initialized);
    assert_eq!(session.apply_init(Status::VersionError), Err(DeflateError::IncompatibleVersion));
    assert!(!session.initialized);
    assert_eq!(session.apply_init(Status::DataError), Err(DeflateError::Unexpected));
    assert_eq!(session.apply_init(Status::BufError), Err(DeflateError::Unexpected));
    assert_eq!(session.apply_init(Status::Unexpected), Err(DeflateError::Unexpected));
    assert!(!session.initialized);
}

#[test]
fn dictionary_outcomes_map_exactly() {
    let session = initialized_session();
    assert_eq!(session.apply_dictionary(Status::Progress), Ok(()));
    assert_eq!(session.apply_dictionary(Status::StreamError), Err(DeflateError::InvalidParameter));
    assert_eq!(session.apply_dictionary(Status::DataError), Err(DeflateError::Unexpected));
    assert_eq!(session.apply_dictionary(Status::Unexpected), Err(DeflateError::Unexpected));
}

#[test]
fn step_emits_written_bytes_and_loops_on_full_buffer() {
    let mut session = initialized_session();
    // Buffer filled completely: emit it all and step again.
    let action = session.apply_step(Status::Progress, 32768, 0);
    assert_eq!(action, StepAction::Emit { count: 32768, again: true });
    assert!(!session.finished);
    // Space left over: the engine drained everything it can for this call.
    let action = session.apply_step(Status::Progress, 32768, 100);
    assert_eq!(action, StepAction::Emit { count: 32668, again: false });
    assert!(!session.finished);
}

#[test]
fn empty_write_no_flush_decision_changes_nothing() {
    // An engine that makes an empty write a plain no-op success reports
    // progress with the whole buffer still free; the session emits
    // nothing, ends the call successfully, and is unchanged for
    // subsequent writes.
    let mut session = initialized_session();
    let action = session.apply_step(Status::Progress, 32768, 32768);
    assert_eq!(action, StepAction::Emit { count: 0, again: false });
    assert!(session.initialized);
    assert!(!session.finished);
    let action = session.apply_step(Status::Progress, 32768, 32000);
    assert_eq!(action, StepAction::Emit { count: 768, again: false });
}

#[test]
fn step_stream_end_marks_finished_for_good() {
    let mut session = initialized_session();
    let action = session.apply_step(Status::StreamEnd, 4096, 1000);
    assert_eq!(action, StepAction::Emit { count: 3096, again: false });
    assert!(session.finished);
    // `finished` is monotonic: a later step cannot clear it.
    let action = session.apply_step(Status::Progress, 4096, 4096);
    assert_eq!(action, StepAction::Emit { count: 0, again: false });
    assert!(session.finished);
}

#[test]
fn step_failure_statuses_map_exactly() {
    let mut session = initialized_session();
    let action = session.apply_step(Status::StreamError, 4096, 4096);
    assert_eq!(action, StepAction::Fail(DeflateError::InconsistentStream));
    let action = session.apply_step(Status::BufError, 4096, 4096);
    assert_eq!(action, StepAction::Fail(DeflateError::NoProgress));
    let action = session.apply_step(Status::MemError, 4096, 4096);
    assert_eq!(action, StepAction::Fail(DeflateError::Unexpected));
    let action = session.apply_step(Status::Unexpected, 4096, 4096);
    assert_eq!(action, StepAction::Fail(DeflateError::Unexpected));
    assert!(!session.finished);
}

#[test]
fn finish_without_any_write_is_a_no_op_success() {
    let session = Deflate::new(default_options());
    // Nothing was ever initialized, so there is nothing to release.
    assert!(!session.end_request());
    assert_eq!(session.finish(None), Ok(()));
}

#[test]
fn finish_statuses_map_exactly() {
    let session = initialized_session();
    assert!(session.end_request());
    assert_eq!(session.finish(Some(Status::Progress)), Ok(()));

    let session = initialized_session();
    // The engine frees nothing on its inconsistent-state answer to the
    // release call, so it is treated as success.
    assert_eq!(session.finish(Some(Status::StreamError)), Ok(()));

    let session = initialized_session();
    assert_eq!(session.finish(Some(Status::DataError)), Err(DeflateError::StreamFreedEarly));

    let session = initialized_session();
    assert_eq!(session.finish(Some(Status::MemError)), Err(DeflateError::Unexpected));
}
