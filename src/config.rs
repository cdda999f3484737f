//! Process settings: the port the server listens on and its log level.

use vstd::prelude::*;

use crate::text::{equal_ignoring_ascii_case, same_text_ignoring_ascii_case};

verus! {

/// The port a server listens on when no settings say otherwise.
pub const DEFAULT_PORT: u16 = 3000;

/// The log level when no settings say otherwise.
pub const DEFAULT_LOG_LEVEL: &'static str = "INFO";

/// The log level that reports the most.
pub const TRACE_LOG_LEVEL: &'static str = "TRACE";

/// The settings of a server process.
#[derive(Debug)]
pub struct CastielSettings {
    pub port: u16,
    pub log_level: String,
}

impl Default for CastielSettings {
    fn default() -> (r: CastielSettings)
        ensures
            r.port == DEFAULT_PORT,
            r.log_level@ == DEFAULT_LOG_LEVEL@,
    {
        CastielSettings { port: DEFAULT_PORT, log_level: DEFAULT_LOG_LEVEL.to_owned() }
    }
}

impl CastielSettings {
    /// Whether loading these settings is announced: only at the `INFO` and
    /// `TRACE` levels, in any letter case.
    pub fn announces_on_load(&self) -> (r: bool)
        ensures
            r == (equal_ignoring_ascii_case(self.log_level@, DEFAULT_LOG_LEVEL@)
                || equal_ignoring_ascii_case(self.log_level@, TRACE_LOG_LEVEL@)),
    {
        same_text_ignoring_ascii_case(self.log_level.as_str(), DEFAULT_LOG_LEVEL)
            || same_text_ignoring_ascii_case(self.log_level.as_str(), TRACE_LOG_LEVEL)
    }
}

} // verus!
