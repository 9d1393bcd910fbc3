//! A verified streaming-deflate session.
//!
//! Callers push chunks of raw bytes together with a flush directive into a
//! session that drives an opaque compression engine: it initializes the
//! engine lazily and exactly once, presents input, asks for output until the
//! engine has drained everything it is willing to produce, translates every
//! low-level status code into a two-kind error taxonomy, and releases engine
//! resources exactly once when the session is consumed.
//!
//! The engine itself (zlib's deflate) and the byte sink are collaborators
//! outside this crate: the session speaks to them through plain values — the
//! parameters an initialization call needs, the status an engine call
//! reported, the number of scratch-buffer bytes to hand to the sink. Every
//! decision the session makes over those values is specified and verified
//! here.

pub mod engine;
pub mod error;
pub mod options;
pub mod session;

pub use engine::Flush;
pub use engine::Status;
pub use error::DeflateError;
pub use error::ErrorKind;
pub use options::Options;
pub use options::OptionsBuilder;
pub use session::Deflate;
pub use session::StepAction;
