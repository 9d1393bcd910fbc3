//! The immutable configuration bundle a session initializes its engine
//! with, and the fluent builder that produces it.

use vstd::prelude::*;

verus! {

/// zlib's request for its default compression level.
pub const DEFAULT_COMPRESSION: i32 = -1;

/// The one coding method the engine supports (zlib's `Z_DEFLATED`).
pub const DEFLATED: i32 = 8;

/// The engine's default strategy hint (zlib's `Z_DEFAULT_STRATEGY`).
pub const DEFAULT_STRATEGY: i32 = 0;

/// Default size, as a power of two, of the engine's history buffer.
pub const DEFAULT_WINDOW_BITS: i32 = 15;

/// Default memory-versus-speed trade-off level.
pub const DEFAULT_MEM_LEVEL: i32 = 8;

/// The parameter bundle one engine initialization consumes: compression
/// level, coding method, window size, memory budget and strategy hint.
///
/// No range validation happens here; an out-of-range value is rejected by
/// the engine at initialization time and surfaces as an invalid-input
/// error.
#[derive(Copy, Clone, PartialEq, Eq, Structural, Debug)]
pub struct Options {
    pub level: i32,
    pub method: i32,
    pub window_bits: i32,
    pub mem_level: i32,
    pub strategy: i32,
}

impl Options {
    /// The engine's default configuration.
    pub open spec fn spec_default() -> Options {
        Options {
            level: DEFAULT_COMPRESSION,
            method: DEFLATED,
            window_bits: DEFAULT_WINDOW_BITS,
            mem_level: DEFAULT_MEM_LEVEL,
            strategy: DEFAULT_STRATEGY,
        }
    }
}

/// Fluent builder for [`Options`], pre-populated with the engine defaults.
pub struct OptionsBuilder {
    pub options: Options,
}

impl OptionsBuilder {
    /// A builder holding the engine's default configuration.
    pub fn new() -> (b: OptionsBuilder)
        ensures
            b.options == Options::spec_default(),
    {
        OptionsBuilder {
            options: Options {
                level: DEFAULT_COMPRESSION,
                method: DEFLATED,
                window_bits: DEFAULT_WINDOW_BITS,
                mem_level: DEFAULT_MEM_LEVEL,
                strategy: DEFAULT_STRATEGY,
            },
        }
    }

    /// Override the compression level, leaving every other field as it was.
    pub fn set_level(self, level: u32) -> (b: OptionsBuilder)
        ensures
            b.options.level == level as i32,
            b.options.method == self.options.method,
            b.options.window_bits == self.options.window_bits,
            b.options.mem_level == self.options.mem_level,
            b.options.strategy == self.options.strategy,
    {
        let mut next = self;
        next.options.level = #[verifier::truncate] (level as i32);
        next
    }

    /// Consume the builder and return the finished configuration.
    pub fn finish(self) -> (o: Options)
        ensures
            o == self.options,
    {
        self.options
    }
}

} // verus!
