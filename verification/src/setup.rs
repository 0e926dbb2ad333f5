//! Startup decisions: which devices to monitor, which listeners to create,
//! and the initial shared state.

use vstd::prelude::*;
use crate::config::Config;
use crate::errors::KbError;
use crate::resolver::DeviceRecord;
use crate::resolver::canons_unique;
use crate::resolver::default_devices_spec;
use crate::resolver::duplicate_report;
use crate::resolver::get_default_devices;
use crate::resolver::normalize_devices;
use crate::resolver::remaining_defaults;
use crate::state::State;

verus! {

/// How long to sleep between the polls of the startup wait, in
/// milliseconds.
pub const WAIT_POLL_INTERVAL_MS: u64 = 250;

/// Everything the caller must bring up before entering the main loop.
#[derive(Debug, Clone, PartialEq, Eq)]
pub struct SetupPlan {
    /// Device nodes to open and register, in order: the explicitly
    /// configured ones first, then the defaults they do not cover.
    pub devices: Vec<String>,
    /// The shared state the loop starts from.
    pub initial_state: State,
    /// Watch the brightness file for writes by other software.
    pub use_software_listener: bool,
    /// Watch the hardware-change-notification file (it exists and adaptive
    /// mode is on).
    pub use_hardware_listener: bool,
}

/// Decide the startup plan. `provided_canons` holds the canonical form of
/// each configured input path, in order; `default_records` the enumerated
/// input devices; `led_hw_path` the detected hardware-change-notification
/// path. Two configured paths canonicalizing identically are a fatal
/// configuration error.
pub fn setup_daemon(
    config: &Config,
    provided_canons: &Vec<String>,
    default_records: &Vec<DeviceRecord>,
    led_hw_path: &Option<String>,
    now: u64,
) -> (r: Result<SetupPlan, KbError>)
    requires
        provided_canons@.len() == config.monitor_input@.len(),
    ensures
        canons_unique(provided_canons@) ==> (r matches Ok(p) && {
            &&& p.devices@ == config.monitor_input@ + remaining_defaults(
                default_devices_spec(default_records@),
                provided_canons@,
            )
            &&& p.initial_state == (State {
                last_input: now,
                keep_until: None,
                current_brightness: 0,
                requested_brightness: spec_default_brightness(config.brightness),
            })
            &&& p.use_software_listener == config.adaptive
            &&& p.use_hardware_listener == (config.adaptive && led_hw_path is Some)
        }),
        !canons_unique(provided_canons@) ==> (r matches Err(e) && duplicate_report(
            config.monitor_input@,
            provided_canons@,
            e,
        )),
{
    let defaults = get_default_devices(default_records);
    let devices = match normalize_devices(config.monitor_input.clone(), provided_canons, defaults) {
        Ok(v) => v,
        Err(e) => {
            return Err(e);
        },
    };

    let mut initial_state = State::new(now);
    initial_state.requested_brightness = match config.brightness {
        Some(b) => b,
        None => 1,
    };

    let use_software_listener = config.adaptive;
    let use_hardware_listener = config.adaptive && led_hw_path.is_some();

    Ok(
        SetupPlan {
            devices,
            initial_state,
            use_software_listener,
            use_hardware_listener,
        },
    )
}

/// The brightness the daemon starts out requesting: the configured value,
/// or 1.
pub open spec fn spec_default_brightness(configured: Option<u32>) -> u32 {
    match configured {
        Some(b) => b,
        None => 1,
    }
}

/// The instant the startup wait gives up, saturating at the clock's end.
pub fn wait_deadline(now: u64, timeout: u64) -> (r: u64)
    ensures
        r == if now + timeout <= u64::MAX {
            (now + timeout) as u64
        } else {
            u64::MAX
        },
{
    if timeout <= u64::MAX - now {
        now + timeout
    } else {
        u64::MAX
    }
}

/// One round of the startup wait for a configured path to appear.
#[derive(Debug, Clone, Copy, PartialEq, Eq)]
pub enum WaitStep {
    /// The path exists; setup goes on.
    Ready,
    /// Not there yet: poll again after [`WAIT_POLL_INTERVAL_MS`].
    Retry,
}

/// Decide one round of the startup wait: once the deadline has passed, the
/// path never appeared within the wait window and that is a distinguished
/// fatal error, whatever the filesystem says now.
pub fn wait_step(path: &String, now: u64, deadline: u64, exists: bool) -> (r: Result<
    WaitStep,
    KbError,
>)
    ensures
        now >= deadline ==> r == Err::<WaitStep, KbError>(KbError::IoFileNotFound { path: *path }),
        now < deadline && exists ==> r == Ok::<WaitStep, KbError>(WaitStep::Ready),
        now < deadline && !exists ==> r == Ok::<WaitStep, KbError>(WaitStep::Retry),
{
    if now >= deadline {
        Err(KbError::IoFileNotFound { path: path.clone() })
    } else if exists {
        Ok(WaitStep::Ready)
    } else {
        Ok(WaitStep::Retry)
    }
}

} // verus!
