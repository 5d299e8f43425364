//! How much the host is to log. The choice is a value that the host is handed
//! at startup and installs itself; nothing here is global.

use vstd::prelude::*;

verus! {

/// How much is logged, from the most to the least.
#[derive(Debug, Clone, Copy, PartialEq, Eq, Structural)]
pub enum LogLevel {
    Trace,
    Debug,
    Info,
    Warn,
    Error,
}

/// What the host's logger is set up with.
#[derive(Debug, Clone, Copy, PartialEq, Eq, Structural)]
pub struct LoggerConfig {
    /// The most verbose level that is still logged.
    pub max_level: LogLevel,
}

/// The level of a build: a debug build logs down to `Debug`, any other down
/// to `Info`.
pub open spec fn level_of_build(debug_build: bool) -> LogLevel {
    if debug_build {
        LogLevel::Debug
    } else {
        LogLevel::Info
    }
}

/// The logger's configuration for a build.
pub fn init(debug_build: bool) -> (config: LoggerConfig)
    ensures
        config.max_level == level_of_build(debug_build),
{
    if debug_build {
        LoggerConfig { max_level: LogLevel::Debug }
    } else {
        LoggerConfig { max_level: LogLevel::Info }
    }
}

} // verus!
