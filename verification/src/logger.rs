//! The logging interface that the runtime writes to.

use vstd::prelude::*;

verus! {

/// Importance of a log line.
#[derive(Clone, Copy, Debug, PartialEq, Eq, Structural)]
pub enum Level {
    Error,
    Warn,
    Info,
    Debug,
    Trace,
}

/// Where the runtime writes its log lines. Sensitive lines may hold data of a
/// request, public ones never do.
pub trait OakLogger {
    /// Takes a line that may hold sensitive data.
    fn log_sensitive(&self, level: Level, message: &str);

    /// Takes a line that holds no sensitive data.
    fn log_public(&self, level: Level, message: &str);
}

} // verus!
