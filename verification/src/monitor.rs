//! The multiplexer's registration table and per-wake decisions.
//!
//! The table is a generation-indexed slot map: a registration's stable
//! handle is its slot paired with the slot's generation, slots are reused
//! after removal, and a removed registration's handle can never be mistaken
//! for its successor's. Descriptor-backed handlers are polled under the tag
//! `slot + 1` (0 is the no-op sentinel and the highest values are reserved
//! for the control channels); path-backed handlers are found through a side
//! table keyed by their watch descriptor.
//!
//! The caller owns the OS polling primitives: it registers and removes the
//! OS-level watches exactly as these functions instruct, blocks until
//! readiness, and hands every observed event in.

use vstd::prelude::*;
use crate::errors::KbError;
use crate::handlers::Handler;
use crate::handlers::HandlerEvent;
use crate::handlers::ListenTarget;
use crate::handlers::ProcessAction;
use crate::led::Led;
use crate::resolver::DeviceRecord;
use crate::resolver::is_default_device;
use crate::resolver::is_explicit_match;
use crate::resolver::get_devnode_if_monitored;
use crate::state::State;

verus! {

/// Readiness tag of the path-change-notification control channel.
pub const INOTIFY_TAG: u64 = u64::MAX;

/// Readiness tag of the hotplug control channel.
pub const UDEV_TAG: u64 = u64::MAX - 1;

/// One slot of the registration table.
#[derive(Debug, Clone)]
pub enum Slot {
    /// Free; remembers the generation its next occupant will get.
    Empty { generation: u64 },
    /// Holds a live registration.
    Occupied { generation: u64, handler: Handler },
}

/// A stable reference to one registration: its slot and the slot's
/// generation at registration time. A handle outlives its registration
/// only as a stale value that no longer passes [`Multiplexer::live`].
#[derive(Debug, Clone, Copy, PartialEq, Eq)]
pub struct Handle {
    pub slot: usize,
    pub generation: u64,
}

/// Where one readiness tag leads.
#[derive(Debug, Clone, Copy, PartialEq, Eq)]
pub enum Route {
    /// The no-op sentinel tag.
    Nothing,
    /// The path-change-notification control channel: drain its
    /// notifications and route each through the watch table.
    PathNotifications,
    /// The hotplug control channel: drain its records.
    Hotplug,
    /// A registered handler's tag.
    HandlerSlot(usize),
    /// A tag no live registration accounts for.
    Unknown,
}

/// What to do about one hotplug record.
#[derive(Debug, Clone, PartialEq, Eq)]
pub enum HotplugDecision {
    /// Open this device node and register a new input handler for it.
    AddDevice(String),
    /// Deregister exactly this registration and drop its handler.
    RemoveHandler(Handle),
    /// Not a monitored device, or nothing registered for it.
    Ignore,
}

/// A hotplug record's action, as plain values.
#[derive(Debug, Clone, Copy, PartialEq, Eq)]
pub enum HotplugAction {
    Add,
    Remove,
    OtherAction,
}

/// One hotplug record: what happened, and to which device.
#[derive(Debug, Clone)]
pub struct HotplugRecord {
    pub action: HotplugAction,
    pub device: DeviceRecord,
}

/// The registration table of the event multiplexer.
#[derive(Debug, Clone)]
pub struct Multiplexer {
    /// The slot map of registrations.
    pub slots: Vec<Slot>,
    /// Watch descriptor of each path-backed registration, with its slot.
    pub watch_map: Vec<(i32, usize)>,
}

impl Multiplexer {
    /// Is `slot` a live registration?
    pub open spec fn has_handler(self, slot: int) -> bool {
        0 <= slot < self.slots@.len() && self.slots@[slot] is Occupied
    }

    /// The handler registered at `slot`.
    pub open spec fn handler_at(self, slot: int) -> Handler {
        self.slots@[slot]->handler
    }

    /// The generation stored at `slot`, occupied or not.
    pub open spec fn generation_at(self, slot: int) -> u64 {
        match self.slots@[slot] {
            Slot::Empty { generation } => generation,
            Slot::Occupied { generation, .. } => generation,
        }
    }

    /// Does `h` refer to the registration currently at its slot?
    pub open spec fn live(self, h: Handle) -> bool {
        &&& self.has_handler(h.slot as int)
        &&& self.generation_at(h.slot as int) == h.generation
    }

    /// Is `slot` a live registration of an input device named `devnode`?
    pub open spec fn input_slot_with(self, devnode: Seq<char>, slot: int) -> bool {
        &&& self.has_handler(slot)
        &&& self.handler_at(slot) matches Handler::InputDevice { devnode: d, .. } && d@ == devnode
    }

    /// Table invariant: every watch entry points at a live path-backed
    /// registration, and neither a watch descriptor nor a slot appears in
    /// the side table twice — each live OS registration maps to exactly one
    /// handler.
    pub open spec fn wf(self) -> bool {
        &&& forall|k: int|
            0 <= k < self.watch_map@.len() ==> {
                let slot = (#[trigger] self.watch_map@[k]).1 as int;
                &&& self.has_handler(slot)
                &&& !(self.handler_at(slot) is InputDevice)
            }
        &&& forall|k1: int, k2: int|
            0 <= k1 < k2 < self.watch_map@.len() ==> (#[trigger] self.watch_map@[k1]).0 != (
            #[trigger] self.watch_map@[k2]).0
        &&& forall|k1: int, k2: int|
            0 <= k1 < k2 < self.watch_map@.len() ==> (#[trigger] self.watch_map@[k1]).1 != (
            #[trigger] self.watch_map@[k2]).1
    }

    /// An empty table.
    pub fn new() -> (m: Multiplexer)
        ensures
            m.slots@.len() == 0,
            m.watch_map@.len() == 0,
            m.wf(),
    {
        Multiplexer { slots: Vec::new(), watch_map: Vec::new() }
    }

    /// The readiness tag under which `slot` is polled.
    pub fn tag_of(&self, slot: usize) -> (tag: u64)
        requires
            slot < self.slots@.len(),
        ensures
            tag == slot + 1,
    {
        let n = self.slots.len();
        slot as u64 + 1
    }

    /// Register `handler` in the first free slot (the table grows only when
    /// none is free). Every other registration, and the watch table, stay
    /// untouched.
    pub fn register(&mut self, handler: Handler) -> (h: Handle)
        requires
            old(self).wf(),
        ensures
            final(self).wf(),
            final(self).live(h),
            final(self).handler_at(h.slot as int) == handler,
            final(self).watch_map == old(self).watch_map,
            (h.slot as int) <= old(self).slots@.len(),
            h.slot as int == old(self).slots@.len() ==> final(self).slots@.len() == old(
                self,
            ).slots@.len() + 1,
            (h.slot as int) < old(self).slots@.len() ==> {
                &&& final(self).slots@.len() == old(self).slots@.len()
                &&& old(self).slots@[h.slot as int] is Empty
            },
            forall|j: int|
                0 <= j < old(self).slots@.len() && j != h.slot as int ==> final(self).slots@[j]
                    == old(self).slots@[j],
    {
        let n = self.slots.len();
        let mut i: usize = 0;
        while i < n
            invariant
                i <= n,
                n == self.slots@.len(),
                *self == *old(self),
                old(self).wf(),
                forall|k: int| 0 <= k < i ==> !(old(self).slots@[k] is Empty),
            decreases n - i,
        {
            let generation = match &self.slots[i] {
                Slot::Empty { generation } => Some(*generation),
                Slot::Occupied { .. } => None,
            };
            match generation {
                Some(generation) => {
                    self.slots.set(i, Slot::Occupied { generation, handler });
                    proof {
                        assert forall|k: int|
                            0 <= k < self.watch_map@.len() implies {
                            let slot = (#[trigger] self.watch_map@[k]).1 as int;
                            &&& self.has_handler(slot)
                            &&& !(self.handler_at(slot) is InputDevice)
                        } by {
                            assert(old(self).watch_map@[k] == self.watch_map@[k]);
                            assert(old(self).has_handler(old(self).watch_map@[k].1 as int));
                        }
                    }
                    return Handle { slot: i, generation };
                },
                None => {},
            }
            i = i + 1;
        }
        self.slots.push(Slot::Occupied { generation: 0, handler });
        proof {
            assert forall|k: int|
                0 <= k < self.watch_map@.len() implies {
                let slot = (#[trigger] self.watch_map@[k]).1 as int;
                &&& self.has_handler(slot)
                &&& !(self.handler_at(slot) is InputDevice)
            } by {
                assert(old(self).watch_map@[k] == self.watch_map@[k]);
                assert(old(self).has_handler(old(self).watch_map@[k].1 as int));
            }
        }
        Handle { slot: n, generation: 0 }
    }

    /// Record that the OS watch `wd` now delivers notifications for the
    /// path-backed registration `h`.
    pub fn note_watch(&mut self, wd: i32, h: Handle)
        requires
            old(self).wf(),
            old(self).live(h),
            !(old(self).handler_at(h.slot as int) is InputDevice),
            forall|k: int| 0 <= k < old(self).watch_map@.len() ==> (#[trigger] old(
                self,
            ).watch_map@[k]).0 != wd,
            forall|k: int| 0 <= k < old(self).watch_map@.len() ==> (#[trigger] old(
                self,
            ).watch_map@[k]).1 != h.slot,
        ensures
            final(self).wf(),
            final(self).slots == old(self).slots,
            final(self).watch_map@ == old(self).watch_map@.push((wd, h.slot)),
    {
        self.watch_map.push((wd, h.slot));
    }

    /// The slot the OS watch `wd` delivers to, if any.
    pub fn watch_slot(&self, wd: i32) -> (r: Option<usize>)
        ensures
            r matches Some(slot) ==> exists|k: int|
                0 <= k < self.watch_map@.len() && (#[trigger] self.watch_map@[k]) == (wd, slot),
            r is None ==> forall|k: int|
                0 <= k < self.watch_map@.len() ==> (#[trigger] self.watch_map@[k]).0 != wd,
    {
        let mut k: usize = 0;
        while k < self.watch_map.len()
            invariant
                k <= self.watch_map@.len(),
                forall|j: int| 0 <= j < k ==> (#[trigger] self.watch_map@[j]).0 != wd,
            decreases self.watch_map@.len() - k,
        {
            let (w, slot) = self.watch_map[k];
            if w == wd {
                return Some(slot);
            }
            k = k + 1;
        }
        None
    }

    /// Where the readiness tag `tag` leads.
    pub open spec fn route_spec(self, tag: u64) -> Route {
        if tag == 0 {
            Route::Nothing
        } else if tag == INOTIFY_TAG {
            Route::PathNotifications
        } else if tag == UDEV_TAG {
            Route::Hotplug
        } else if tag - 1 < self.slots@.len() {
            Route::HandlerSlot((tag - 1) as usize)
        } else {
            Route::Unknown
        }
    }

    /// Route one readiness tag: 0 is a no-op, the two highest values are the
    /// control channels, anything else is the handler registered under
    /// `tag - 1`.
    pub fn route(&self, tag: u64) -> (r: Route)
        ensures
            r == self.route_spec(tag),
    {
        if tag == 0 {
            Route::Nothing
        } else if tag == INOTIFY_TAG {
            Route::PathNotifications
        } else if tag == UDEV_TAG {
            Route::Hotplug
        } else if tag - 1 < self.slots.len() as u64 {
            Route::HandlerSlot((tag - 1) as usize)
        } else {
            Route::Unknown
        }
    }

    /// The listen target of the registration at `slot`, if one is live
    /// there; lets the caller see what kind of event to collect before
    /// dispatching.
    pub fn target_of(&self, slot: usize) -> (r: Option<ListenTarget>)
        ensures
            r matches Some(t) ==> self.has_handler(slot as int) && t == self.handler_at(
                slot as int,
            ).monitored_spec(),
            r is None ==> !self.has_handler(slot as int),
    {
        if slot >= self.slots.len() {
            return None;
        }
        match &self.slots[slot] {
            Slot::Occupied { handler, .. } => Some(handler.monitored()),
            Slot::Empty { .. } => None,
        }
    }

    /// Dispatch one readiness event to the registration at `slot`.
    pub fn process_slot(
        &self,
        state: &mut State,
        led: &mut Led,
        slot: usize,
        event: HandlerEvent,
        now: u64,
    ) -> (r: Result<ProcessAction, KbError>)
        requires
            self.has_handler(slot as int),
            self.handler_at(slot as int).event_fits(event),
        ensures
            r == self.handler_at(slot as int).process_result(event, now),
            *final(state) == self.handler_at(slot as int).state_after_process(
                *old(state),
                event,
                now,
            ),
            *final(led) == self.handler_at(slot as int).led_after_process(*old(led), event, now),
    {
        match &self.slots[slot] {
            Slot::Occupied { handler, .. } => handler.process(state, led, event, now),
            Slot::Empty { .. } => {
                proof {
                    assert(false);
                }
                Ok(ProcessAction::NoChange)
            },
        }
    }

    /// Carry out the table side of the reopen protocol: the handler at
    /// `slot` keeps its slot, generation and device node, and only its
    /// descriptor changes to `new_fd`. Returns the old and the new listen
    /// target; the caller must deregister the former from the OS and
    /// register the latter under the same tag. Every other registration is
    /// untouched.
    pub fn apply_reset(&mut self, slot: usize, new_fd: i32) -> (r: (ListenTarget, ListenTarget))
        requires
            old(self).wf(),
            old(self).has_handler(slot as int),
            old(self).handler_at(slot as int) is InputDevice,
        ensures
            final(self).wf(),
            final(self).watch_map == old(self).watch_map,
            final(self).slots@.len() == old(self).slots@.len(),
            r.0 == old(self).handler_at(slot as int).monitored_spec(),
            r.1 == final(self).handler_at(slot as int).monitored_spec(),
            r.1 == ListenTarget::FileDescriptor(new_fd),
            final(self).has_handler(slot as int),
            final(self).generation_at(slot as int) == old(self).generation_at(slot as int),
            final(self).handler_at(slot as int) == (Handler::InputDevice {
                devnode: old(self).handler_at(slot as int)->InputDevice_devnode,
                fd: new_fd,
            }),
            forall|j: int|
                0 <= j < old(self).slots@.len() && j != slot as int ==> final(self).slots@[j]
                    == old(self).slots@[j],
    {
        let (generation, devnode, old_fd) = match &self.slots[slot] {
            Slot::Occupied { generation, handler: Handler::InputDevice { devnode, fd } } => (
                *generation,
                devnode.clone(),
                *fd,
            ),
            _ => {
                proof {
                    assert(false);
                }
                (0, String::new(), 0)
            },
        };
        self.slots.set(
            slot,
            Slot::Occupied { generation, handler: Handler::InputDevice { devnode, fd: new_fd } },
        );
        proof {
            assert forall|k: int|
                0 <= k < self.watch_map@.len() implies {
                let s = (#[trigger] self.watch_map@[k]).1 as int;
                &&& self.has_handler(s)
                &&& !(self.handler_at(s) is InputDevice)
            } by {
                assert(old(self).watch_map@[k] == self.watch_map@[k]);
                assert(old(self).has_handler(old(self).watch_map@[k].1 as int));
                assert(old(self).watch_map@[k].1 != slot);
            }
        }
        (ListenTarget::FileDescriptor(old_fd), ListenTarget::FileDescriptor(new_fd))
    }

    /// Remove the input-device registration `h`: its slot becomes free under
    /// the next generation, so the handle can never again pass for live.
    /// Every other registration, and the watch table, stay untouched.
    pub fn deregister(&mut self, h: Handle) -> (target: ListenTarget)
        requires
            old(self).wf(),
            old(self).live(h),
            old(self).handler_at(h.slot as int) is InputDevice,
            h.generation < u64::MAX,
        ensures
            final(self).wf(),
            final(self).watch_map == old(self).watch_map,
            final(self).slots@.len() == old(self).slots@.len(),
            target == old(self).handler_at(h.slot as int).monitored_spec(),
            final(self).slots@[h.slot as int] == (Slot::Empty {
                generation: (h.generation + 1) as u64,
            }),
            !final(self).live(h),
            forall|j: int|
                0 <= j < old(self).slots@.len() && j != h.slot as int ==> final(self).slots@[j]
                    == old(self).slots@[j],
    {
        let target = match &self.slots[h.slot] {
            Slot::Occupied { handler, .. } => handler.monitored(),
            Slot::Empty { .. } => {
                proof {
                    assert(false);
                }
                ListenTarget::FileDescriptor(0)
            },
        };
        self.slots.set(h.slot, Slot::Empty { generation: h.generation + 1 });
        proof {
            assert forall|k: int|
                0 <= k < self.watch_map@.len() implies {
                let s = (#[trigger] self.watch_map@[k]).1 as int;
                &&& self.has_handler(s)
                &&& !(self.handler_at(s) is InputDevice)
            } by {
                assert(old(self).watch_map@[k] == self.watch_map@[k]);
                assert(old(self).has_handler(old(self).watch_map@[k].1 as int));
                assert(old(self).watch_map@[k].1 != h.slot);
            }
        }
        target
    }

    /// The first live input-device registration for `devnode`, if any.
    pub fn find_input_handler(&self, devnode: &String) -> (r: Option<Handle>)
        ensures
            r matches Some(h) ==> {
                &&& self.live(h)
                &&& self.input_slot_with(devnode@, h.slot as int)
                &&& forall|k: int| 0 <= k < h.slot as int ==> !self.input_slot_with(devnode@, k)
            },
            r is None ==> forall|k: int|
                0 <= k < self.slots@.len() ==> !self.input_slot_with(devnode@, k),
    {
        let mut i: usize = 0;
        let n = self.slots.len();
        while i < n
            invariant
                i <= n,
                n == self.slots@.len(),
                forall|k: int| 0 <= k < i ==> !self.input_slot_with(devnode@, k),
            decreases n - i,
        {
            match &self.slots[i] {
                Slot::Occupied { generation, handler: Handler::InputDevice { devnode: d, .. } } => {
                    if d.eq(devnode) {
                        return Some(Handle { slot: i, generation: *generation });
                    }
                },
                _ => {},
            }
            i = i + 1;
        }
        None
    }

    /// Decide what one hotplug record calls for: a matching "add" record
    /// asks for exactly one new registration for its device node; a
    /// matching "remove" record asks to drop exactly the registration that
    /// holds that node; everything else is ignored.
    pub fn hotplug_decision(&self, record: &HotplugRecord, cli_canons: &Vec<String>) -> (r:
        HotplugDecision)
        ensures
            ({
                let dev = record.device;
                let monitored = is_explicit_match(dev, cli_canons@) || is_default_device(dev);
                match record.action {
                    HotplugAction::Add => r == if monitored {
                        HotplugDecision::AddDevice(dev.devnode->Some_0)
                    } else {
                        HotplugDecision::Ignore
                    },
                    HotplugAction::Remove => {
                        &&& (r matches HotplugDecision::RemoveHandler(h) ==> {
                            &&& monitored
                            &&& self.live(h)
                            &&& self.input_slot_with(dev.devnode->Some_0@, h.slot as int)
                            &&& forall|k: int|
                                0 <= k < h.slot as int ==> !self.input_slot_with(
                                    dev.devnode->Some_0@,
                                    k,
                                )
                        })
                        &&& (r is Ignore ==> (!monitored || forall|k: int|
                            0 <= k < self.slots@.len() ==> !self.input_slot_with(
                                dev.devnode->Some_0@,
                                k,
                            )))
                        &&& (r is AddDevice == false)
                    },
                    HotplugAction::OtherAction => r == HotplugDecision::Ignore,
                }
            }),
    {
        let devnode = match get_devnode_if_monitored(&record.device, cli_canons) {
            Some(d) => d,
            None => {
                return HotplugDecision::Ignore;
            },
        };
        match record.action {
            HotplugAction::Add => HotplugDecision::AddDevice(devnode),
            HotplugAction::Remove => {
                match self.find_input_handler(&devnode) {
                    Some(h) => HotplugDecision::RemoveHandler(h),
                    None => HotplugDecision::Ignore,
                }
            },
            HotplugAction::OtherAction => HotplugDecision::Ignore,
        }
    }
}

/// The time left of `timeout` after `elapsed` has passed: the retry
/// combinator for a wait interrupted by a signal. An indefinite wait stays
/// indefinite.
pub fn remaining_timeout(timeout: Option<u64>, elapsed: u64) -> (r: Option<u64>)
    ensures
        r == match timeout {
            Some(t) => Some(if elapsed <= t {
                (t - elapsed) as u64
            } else {
                0u64
            }),
            None => None::<u64>,
        },
{
    match timeout {
        Some(t) => {
            if elapsed <= t {
                Some(t - elapsed)
            } else {
                Some(0)
            }
        },
        None => None,
    }
}

} // verus!
