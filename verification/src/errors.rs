//! Error types

use vstd::prelude::*;

verus! {

/// Errors surfaced by the daemon's core logic.
///
/// Fatal setup conditions (duplicate device configuration, a path that never
/// appeared within the startup wait window, a missing input configuration)
/// abort before the main loop starts; LED read failures are transient and
/// recovered locally by the callers.
#[derive(Debug, Clone, PartialEq, Eq)]
pub enum KbError {
    /// Two explicitly configured input devices canonicalize to the same node.
    DuplicateDevice { provided: String, canon: String },
    /// No input devices were configured.
    NoMonitoredInputs,
    /// A configured path did not appear within the startup wait window.
    IoFileNotFound { path: String },
    /// Reading the brightness control file failed.
    LedIo,
    /// The brightness control file did not hold an integer.
    LedParse,
}

} // verus!
