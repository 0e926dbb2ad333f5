//! The shared daemon state, mutated by handlers and the policy engine.

use vstd::prelude::*;

verus! {

/// Shared state of the daemon.
///
/// All timestamps are milliseconds on one monotonic clock; the caller samples
/// that clock and passes the current reading into every function that needs
/// "now".
#[derive(Debug, Clone, PartialEq, Eq)]
pub struct State {
    /// When genuine user input was last seen.
    pub last_input: u64,
    /// Optional keep-override deadline: until this instant the requested
    /// brightness is held regardless of idle time.
    pub keep_until: Option<u64>,
    /// Brightness last observed on the device, refreshed each policy pass.
    pub current_brightness: u32,
    /// Brightness to apply while the backlight is on.
    pub requested_brightness: u32,
}

impl State {
    /// Fresh state at startup: input counted as just seen, no override.
    pub fn new(now: u64) -> (s: State)
        ensures
            s == (State {
                last_input: now,
                keep_until: None,
                current_brightness: 0,
                requested_brightness: 0,
            }),
    {
        State { last_input: now, keep_until: None, current_brightness: 0, requested_brightness: 0 }
    }
}

} // verus!
