[package]
name = "keyboard_backlightd"
version = "0.1.0"
edition = "2021"
publish = false

[dependencies]
anyhow = "*"
env_logger = "*"
evdev-rs = "*"
log = "*"
nix = { version = "=0.29.0", features = ["event", "inotify"] }
udev = "*"
xflags = "*"
