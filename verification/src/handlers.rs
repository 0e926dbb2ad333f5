//! Handlers for activity on monitored descriptors and paths.
//!
//! The set of handler kinds is closed, so it is a tagged enumeration
//! dispatched by pattern match: an open input device, the
//! hardware-change-notification file, or the brightness file itself.
//! Each reacts to one kind of readiness event by mutating the shared
//! [`State`] and the [`Led`] cache.

use vstd::prelude::*;
use crate::errors::KbError;
use crate::led::Led;
use crate::led::RawRead;
use crate::led::read_result;
use crate::state::State;

verus! {

/// What a handler wants watched: a file descriptor (readiness polling) or a
/// filesystem path (path-change notification). The registration itself
/// belongs to the multiplexer, not to the handler.
#[derive(Debug, Clone, PartialEq, Eq)]
pub enum ListenTarget {
    FileDescriptor(i32),
    FilesystemPath(String),
}

/// Classification of one input event read from a device.
///
/// LED-state echoes and the synchronization markers that accompany every
/// event must not count as user input: otherwise toggling a lock key on an
/// external keyboard would light the built-in keyboard's backlight.
#[derive(Debug, Clone, Copy, PartialEq, Eq)]
pub enum EventClass {
    /// The device reported a LED state change (for instance a lock-key echo).
    LedEcho,
    /// A synchronization marker between event reports.
    SyncMarker,
    /// Anything else: genuine user input.
    UserInput,
}

/// The outcome of one non-blocking read from an input device.
#[derive(Debug, Clone, Copy, PartialEq, Eq)]
pub enum InputReadOutcome {
    /// An event was read and classified.
    Event(EventClass),
    /// The read failed because the device node vanished.
    NoSuchDevice,
    /// The read failed for any other reason; transient, skipped this cycle.
    ReadFailed,
}

/// What the caller observed for a ready handler.
#[derive(Debug, Clone, PartialEq, Eq)]
pub enum HandlerEvent {
    /// A descriptor-backed handler's device was read.
    Input(InputReadOutcome),
    /// A watched path fired and the brightness file was re-read.
    PathFired(RawRead),
}

/// What the caller must do after a `process` call.
#[derive(Debug, Clone, PartialEq, Eq)]
pub enum ProcessAction {
    NoChange,
    /// Deregister the old target, reopen the resource, and re-register the
    /// handler's new target under the same tag.
    ResetRegistration(ListenTarget),
}

/// One registered handler.
#[derive(Debug, Clone)]
pub enum Handler {
    /// An open input-event device.
    InputDevice { devnode: String, fd: i32 },
    /// The hardware-change-notification file: firmware-reported brightness
    /// is trusted as ground truth and counts as activity.
    HardwareChange { path: String },
    /// The brightness file itself: another process wrote it; not user
    /// activity, but the cache must stay consistent.
    SoftwareChange { path: String },
}

impl Handler {
    /// What this handler wants watched.
    pub open spec fn monitored_spec(self) -> ListenTarget {
        match self {
            Handler::InputDevice { fd, .. } => ListenTarget::FileDescriptor(fd),
            Handler::HardwareChange { path } => ListenTarget::FilesystemPath(path),
            Handler::SoftwareChange { path } => ListenTarget::FilesystemPath(path),
        }
    }

    /// Declares what this handler wants watched; mutates nothing.
    pub fn monitored(&self) -> (t: ListenTarget)
        ensures
            t == self.monitored_spec(),
    {
        match self {
            Handler::InputDevice { fd, .. } => ListenTarget::FileDescriptor(*fd),
            Handler::HardwareChange { path } => ListenTarget::FilesystemPath(path.clone()),
            Handler::SoftwareChange { path } => ListenTarget::FilesystemPath(path.clone()),
        }
    }

    /// Does this event belong to this handler's kind?
    pub open spec fn event_fits(self, event: HandlerEvent) -> bool {
        match self {
            Handler::InputDevice { .. } => event is Input,
            Handler::HardwareChange { .. } => event is PathFired,
            Handler::SoftwareChange { .. } => event is PathFired,
        }
    }

    /// What `process` returns for this handler and event.
    pub open spec fn process_result(self, event: HandlerEvent, now: u64) -> Result<
        ProcessAction,
        KbError,
    > {
        match self {
            Handler::InputDevice { .. } => match event->Input_0 {
                InputReadOutcome::NoSuchDevice => Ok(
                    ProcessAction::ResetRegistration(self.monitored_spec()),
                ),
                _ => Ok(ProcessAction::NoChange),
            },
            _ => match read_result(event->PathFired_0) {
                Ok(_) => Ok(ProcessAction::NoChange),
                Err(e) => Err(e),
            },
        }
    }

    /// The shared state after `process`: only genuine user input and
    /// firmware-reported changes count as activity.
    pub open spec fn state_after_process(self, state: State, event: HandlerEvent, now: u64) -> State {
        match self {
            Handler::InputDevice { .. } => if event->Input_0 == InputReadOutcome::Event(
                EventClass::UserInput,
            ) {
                State { last_input: now, ..state }
            } else {
                state
            },
            Handler::HardwareChange { .. } => State { last_input: now, ..state },
            Handler::SoftwareChange { .. } => state,
        }
    }

    /// The LED cache after `process`: a path-backed handler refreshes it
    /// from the re-read it was handed.
    pub open spec fn led_after_process(self, led: Led, event: HandlerEvent, now: u64) -> Led {
        match self {
            Handler::InputDevice { .. } => led,
            _ => match read_result(event->PathFired_0) {
                Ok(v) => led.with_cache(now, v),
                Err(_) => led,
            },
        }
    }

    /// React to one readiness event.
    ///
    /// An input device's vanishing asks the caller for the reopen protocol;
    /// any other failure is transient and must not terminate the loop.
    pub fn process(
        &self,
        state: &mut State,
        led: &mut Led,
        event: HandlerEvent,
        now: u64,
    ) -> (r: Result<ProcessAction, KbError>)
        requires
            self.event_fits(event),
        ensures
            r == self.process_result(event, now),
            *final(state) == self.state_after_process(*old(state), event, now),
            *final(led) == self.led_after_process(*old(led), event, now),
    {
        match self {
            Handler::InputDevice { .. } => {
                match event {
                    HandlerEvent::Input(outcome) => {
                        match outcome {
                            InputReadOutcome::Event(EventClass::UserInput) => {
                                // Wall-clock time at processing, not the
                                // event's embedded timestamp: device clocks
                                // are not trustworthy.
                                state.last_input = now;
                                Ok(ProcessAction::NoChange)
                            },
                            InputReadOutcome::Event(_) => Ok(ProcessAction::NoChange),
                            InputReadOutcome::NoSuchDevice => Ok(
                                ProcessAction::ResetRegistration(self.monitored()),
                            ),
                            InputReadOutcome::ReadFailed => Ok(ProcessAction::NoChange),
                        }
                    },
                    HandlerEvent::PathFired(_) => {
                        proof {
                            assert(false);
                        }
                        Ok(ProcessAction::NoChange)
                    },
                }
            },
            Handler::HardwareChange { .. } => {
                match event {
                    HandlerEvent::PathFired(raw) => {
                        state.last_input = now;
                        match led.brightness(now, raw) {
                            Ok(_) => Ok(ProcessAction::NoChange),
                            Err(e) => Err(e),
                        }
                    },
                    HandlerEvent::Input(_) => {
                        proof {
                            assert(false);
                        }
                        Ok(ProcessAction::NoChange)
                    },
                }
            },
            Handler::SoftwareChange { .. } => {
                match event {
                    HandlerEvent::PathFired(raw) => {
                        match led.brightness(now, raw) {
                            Ok(_) => Ok(ProcessAction::NoChange),
                            Err(e) => Err(e),
                        }
                    },
                    HandlerEvent::Input(_) => {
                        proof {
                            assert(false);
                        }
                        Ok(ProcessAction::NoChange)
                    },
                }
            },
        }
    }
}

} // verus!
