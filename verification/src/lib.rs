//! Core logic of a keyboard-backlight daemon: an idle/override policy engine,
//! a brightness-device cache, input-device resolution and hotplug handling,
//! and the registration table of the event multiplexer.
//!
//! Everything here is pure decision logic over plain values. The surrounding
//! binary performs the actual I/O (epoll waits, inotify watches, device and
//! sysfs reads) and feeds the observed values into these functions.

pub mod config;
pub mod errors;
pub mod handlers;
pub mod led;
pub mod monitor;
pub mod parse;
pub mod policy;
pub mod resolver;
pub mod setup;
pub mod state;
