//! Model of a sysfs LED control directory with a two-tier brightness cache.
//!
//! The directory holds a readable/writable integer `brightness` file and,
//! on some hardware, a companion `brightness_hw_changed` file that signals
//! firmware-initiated changes. The caller owns the open file handles and
//! performs the reads and writes; each attempted read is handed in as a
//! [`RawRead`], and these functions decide what it means and keep the cache
//! consistent.

use vstd::prelude::*;
use crate::errors::KbError;
use crate::parse::led_value;
use crate::parse::led_value_ok;
use crate::parse::parse_led_value;
use crate::state::State;

verus! {

/// Cache entries younger than this many milliseconds are served without a
/// fresh read.
pub const CACHE_MAX_AGE_MS: u64 = 1000;

/// The outcome of one attempted read of a file: its full contents, or an
/// I/O failure.
#[derive(Debug, Clone, PartialEq, Eq)]
pub enum RawRead {
    Content(String),
    IoError,
}

/// What a raw read of an integer-valued file means.
pub open spec fn read_result(raw: RawRead) -> Result<u32, KbError> {
    match raw {
        RawRead::Content(s) => if led_value_ok(s@) {
            Ok(led_value(s@) as u32)
        } else {
            Err(KbError::LedParse)
        },
        RawRead::IoError => Err(KbError::LedIo),
    }
}

/// A cached brightness observation: the value read or written, and when.
#[derive(Debug, Clone, Copy, PartialEq, Eq)]
pub struct BrightnessCache {
    pub stamp: u64,
    pub value: u32,
}

/// A LED control directory with its optional hardware-change-notification
/// path and the last observed brightness.
#[derive(Debug, Clone)]
pub struct Led {
    /// Path of the LED control directory.
    pub path: String,
    /// Path of the hardware-change-notification file, where the LED has one.
    pub hw_monitor_path: Option<String>,
    /// Last observed brightness, if any, with its timestamp.
    pub cache: Option<BrightnessCache>,
}

/// The path of the hardware-change-notification file under `led_path`, if
/// `exists` says the filesystem has one there.
pub fn monitor_path(led_path: &String, exists: bool) -> (r: Option<String>)
    ensures
        exists ==> (r matches Some(p) && p@ == hw_monitor_candidate(led_path@)),
        !exists ==> r is None,
{
    if exists {
        let mut p = led_path.clone();
        p.append("/brightness_hw_changed");
        Some(p)
    } else {
        None
    }
}

/// Where the hardware-change-notification file would sit under `led_path`.
pub open spec fn hw_monitor_candidate(led_path: Seq<char>) -> Seq<char> {
    led_path + "/brightness_hw_changed"@
}

impl Led {
    /// A LED directory as found at startup: notification path detected by the
    /// caller, nothing observed yet.
    pub fn new(path: String, hw_monitor_path: Option<String>) -> (led: Led)
        ensures
            led.path == path,
            led.hw_monitor_path == hw_monitor_path,
            led.cache is None,
    {
        Led { path, hw_monitor_path, cache: None }
    }

    /// The brightness control file inside this LED directory.
    pub fn brightness_path(&self) -> (r: String)
        ensures
            r@ == self.path@ + "/brightness"@,
    {
        let mut p = self.path.clone();
        p.append("/brightness");
        p
    }

    /// The maximum-brightness file inside this LED directory.
    pub fn max_brightness_path(&self) -> (r: String)
        ensures
            r@ == self.path@ + "/max_brightness"@,
    {
        let mut p = self.path.clone();
        p.append("/max_brightness");
        p
    }

    /// The hardware-change-notification path, where the LED has one.
    pub fn monitor_path(&self) -> (r: &Option<String>)
        ensures
            r == &self.hw_monitor_path,
    {
        &self.hw_monitor_path
    }

    /// This LED with its cache replaced.
    pub open spec fn with_cache(self, stamp: u64, value: u32) -> Led {
        Led { cache: Some(BrightnessCache { stamp, value }), ..self }
    }

    /// Every cache stamp lies at or before `now` (the clock is monotonic).
    pub open spec fn stamps_le(self, now: u64) -> bool {
        self.cache matches Some(c) ==> c.stamp <= now
    }

    /// The cache holds a value observed less than [`CACHE_MAX_AGE_MS`] ago.
    pub open spec fn cache_fresh(self, now: u64) -> bool {
        self.cache matches Some(c) && now - c.stamp < CACHE_MAX_AGE_MS
    }

    /// The cached value may be served without I/O: hardware notifications
    /// keep it trustworthy, or it is young enough.
    pub open spec fn can_use_cache(self, now: u64) -> bool {
        (self.hw_monitor_path is Some && self.cache is Some) || self.cache_fresh(now)
    }

    /// Decides whether the next brightness query must actually read the file.
    pub fn needs_fresh_read(&self, now: u64) -> (r: bool)
        requires
            self.stamps_le(now),
        ensures
            r == !self.can_use_cache(now),
    {
        match &self.cache {
            None => true,
            Some(c) => {
                if self.hw_monitor_path.is_some() {
                    false
                } else {
                    now - c.stamp >= CACHE_MAX_AGE_MS
                }
            },
        }
    }

    /// Interpret a fresh read of the brightness file: on success the cache is
    /// updated to the value just observed; on failure the previous cache is
    /// kept and the failure is returned.
    pub fn brightness(&mut self, now: u64, raw: RawRead) -> (r: Result<u32, KbError>)
        ensures
            r == read_result(raw),
            r matches Ok(v) ==> *final(self) == old(self).with_cache(now, v),
            r is Err ==> *final(self) == *old(self),
    {
        match raw {
            RawRead::Content(s) => {
                match parse_led_value(s.as_str()) {
                    Ok(v) => {
                        self.cache = Some(BrightnessCache { stamp: now, value: v });
                        Ok(v)
                    },
                    Err(e) => Err(e),
                }
            },
            RawRead::IoError => Err(KbError::LedIo),
        }
    }

    /// What serving a brightness query at `now` returns, when the caller
    /// attempted a fresh read exactly if the cache could not be used.
    pub open spec fn query_result(self, now: u64, raw: Option<RawRead>) -> Result<u32, KbError> {
        if self.can_use_cache(now) {
            Ok(self.cache->Some_0.value)
        } else {
            read_result(raw->Some_0)
        }
    }

    /// The LED after serving that query: only a successful fresh read moves
    /// the cache.
    pub open spec fn after_query(self, now: u64, raw: Option<RawRead>) -> Led {
        if !self.can_use_cache(now) && self.query_result(now, raw) is Ok {
            self.with_cache(now, self.query_result(now, raw)->Ok_0)
        } else {
            self
        }
    }

    /// The brightness, from the cache when [`Led::needs_fresh_read`] said no
    /// read was needed, and from the fresh read `raw` otherwise. The caller
    /// passes `raw` exactly when a read was needed, so no I/O happens on the
    /// cached path.
    pub fn brightness_maybe_cached(&mut self, now: u64, raw: Option<RawRead>) -> (r: Result<
        u32,
        KbError,
    >)
        requires
            old(self).stamps_le(now),
            (raw is Some) == !old(self).can_use_cache(now),
        ensures
            r == old(self).query_result(now, raw),
            *final(self) == old(self).after_query(now, raw),
    {
        if !self.needs_fresh_read(now) {
            match &self.cache {
                Some(c) => Ok(c.value),
                None => {
                    proof {
                        assert(false);
                    }
                    Err(KbError::LedIo)
                },
            }
        } else {
            match raw {
                Some(raw) => self.brightness(now, raw),
                None => {
                    proof {
                        assert(false);
                    }
                    Err(KbError::LedIo)
                },
            }
        }
    }

    /// Law: when a hardware-notification path exists and a value is cached,
    /// or the cache is younger than [`CACHE_MAX_AGE_MS`], a brightness query
    /// needs no I/O — it is served from the cache and the LED is unchanged.
    /// Otherwise it takes the fresh read, and a successful one moves the
    /// cache to the value just read.
    pub proof fn lemma_cache_tiers(led: Led, now: u64, raw: Option<RawRead>)
        requires
            (raw is Some) == !led.can_use_cache(now),
        ensures
            led.can_use_cache(now) ==> {
                &&& led.query_result(now, raw) == Ok::<u32, KbError>(led.cache->Some_0.value)
                &&& led.after_query(now, raw) == led
            },
            !led.can_use_cache(now) ==> {
                &&& led.query_result(now, raw) == read_result(raw->Some_0)
                &&& (read_result(raw->Some_0) matches Ok(v) ==> led.after_query(now, raw)
                    == led.with_cache(now, v))
                &&& (read_result(raw->Some_0) is Err ==> led.after_query(now, raw) == led)
            },
    {
    }

    /// Does setting `value` call for reading the current value first?
    /// Only writing 0 in adaptive mode on hardware without change
    /// notifications does: that is the last chance to remember an
    /// externally-set level.
    pub open spec fn needs_pre_read_spec(self, value: u32, adaptive: bool) -> bool {
        value == 0 && adaptive && self.hw_monitor_path is None
    }

    /// Decides whether [`Led::set_brightness`] needs a pre-read.
    pub fn needs_pre_read(&self, value: u32, adaptive: bool) -> (r: bool)
        ensures
            r == self.needs_pre_read_spec(value, adaptive),
    {
        value == 0 && adaptive && self.hw_monitor_path.is_none()
    }

    /// Record a brightness write. When turning the LED off in adaptive mode
    /// on hardware without change notifications, the value read just before
    /// the write (`pre_read`) is adopted as the new requested brightness if
    /// it is nonzero. On success the cache holds the written value; the
    /// caller then performs the actual write. A failed or unparsable
    /// pre-read leaves everything unchanged and is returned.
    pub fn set_brightness(
        &mut self,
        state: &mut State,
        value: u32,
        adaptive: bool,
        pre_read: Option<RawRead>,
        now: u64,
    ) -> (r: Result<(), KbError>)
        requires
            (pre_read is Some) == old(self).needs_pre_read_spec(value, adaptive),
        ensures
            ({
                let needs = old(self).needs_pre_read_spec(value, adaptive);
                let read = read_result(pre_read->Some_0);
                &&& (r is Ok <==> (!needs || read is Ok))
                &&& (r is Ok ==> *final(self) == old(self).with_cache(now, value))
                &&& (r matches Err(e) ==> {
                    &&& *final(self) == *old(self)
                    &&& *final(state) == *old(state)
                    &&& Err::<u32, KbError>(e) == read
                })
                &&& ((needs && (read matches Ok(prev) && prev > 0)) ==> *final(state) == (State {
                    requested_brightness: read->Ok_0,
                    ..*old(state)
                }))
                &&& ((!needs || (read matches Ok(prev) && prev == 0)) ==> *final(state) == *old(state))
            }),
    {
        if self.needs_pre_read(value, adaptive) {
            match pre_read {
                Some(raw) => {
                    match raw {
                        RawRead::Content(s) => {
                            match parse_led_value(s.as_str()) {
                                Ok(prev) => {
                                    if prev > 0 {
                                        state.requested_brightness = prev;
                                    }
                                },
                                Err(e) => {
                                    return Err(e);
                                },
                            }
                        },
                        RawRead::IoError => {
                            return Err(KbError::LedIo);
                        },
                    }
                },
                None => {
                    proof {
                        assert(false);
                    }
                },
            }
        }
        self.cache = Some(BrightnessCache { stamp: now, value });
        Ok(())
    }

    /// Interpret a read of the maximum-brightness file.
    pub fn max_brightness(&self, raw: RawRead) -> (r: Result<u32, KbError>)
        ensures
            r == read_result(raw),
    {
        match raw {
            RawRead::Content(s) => parse_led_value(s.as_str()),
            RawRead::IoError => Err(KbError::LedIo),
        }
    }
}

} // verus!
