//! Scalar configuration handed in by the command-line layer.

use vstd::prelude::*;
use crate::errors::KbError;

verus! {

/// Resolved configuration the core consumes.
///
/// The command-line layer parses flags and hands over plain values; nothing
/// here depends on how they were obtained.
#[derive(Debug, Clone)]
pub struct Config {
    /// Explicitly configured input device nodes to monitor.
    pub monitor_input: Vec<String>,
    /// The LED control directory.
    pub led_base_dir: String,
    /// Idle timeout in milliseconds before the backlight is turned off.
    pub timeout: u64,
    /// Brightness value to use by default, if configured.
    pub brightness: Option<u32>,
    /// Whether to adapt to brightness changes performed externally.
    pub adaptive: bool,
    /// Optional startup wait (milliseconds) for device nodes to appear.
    pub wait: Option<u64>,
}

impl Config {
    /// At least one monitored input device is required.
    pub fn validate(&self) -> (r: Result<(), KbError>)
        ensures
            r == if self.monitor_input@.len() == 0 {
                Err::<(), KbError>(KbError::NoMonitoredInputs)
            } else {
                Ok::<(), KbError>(())
            },
    {
        if self.monitor_input.len() == 0 {
            Err(KbError::NoMonitoredInputs)
        } else {
            Ok(())
        }
    }
}

} // verus!
