use keyboard_backlightd::errors::KbError;
use keyboard_backlightd::led::{monitor_path, BrightnessCache, Led, RawRead};
use keyboard_backlightd::parse::parse_led_value;
use keyboard_backlightd::state::State;

fn led_without_hw() -> Led {
    Led::new(String::from("/sys/class/leds/kbd_backlight"), None)
}

fn led_with_hw() -> Led {
    Led::new(
        String::from("/sys/class/leds/kbd_backlight"),
        Some(String::from(
            "/sys/class/leds/kbd_backlight/brightness_hw_changed",
        )),
    )
}

fn state_at(now: u64) -> State {
    State {
        last_input: now,
        keep_until: None,
        current_brightness: 0,
        requested_brightness: 5,
    }
}

#[test]
fn parse_plain_integer() {
    assert_eq!(parse_led_value("0"), Ok(0));
    assert_eq!(parse_led_value("42"), Ok(42));
    assert_eq!(parse_led_value("007"), Ok(7));
}

#[test]
fn parse_trims_trailing_newlines() {
    assert_eq!(parse_led_value("3\n"), Ok(3));
    assert_eq!(parse_led_value("15\n\n\n"), Ok(15));
}

#[test]
fn parse_accepts_leading_plus() {
    assert_eq!(parse_led_value("+8\n"), Ok(8));
}

#[test]
fn parse_bounds() {
    assert_eq!(parse_led_value("4294967295\n"), Ok(u32::MAX));
    assert_eq!(parse_led_value("4294967296\n"), Err(KbError::LedParse));
    assert_eq!(parse_led_value("99999999999999999999"), Err(KbError::LedParse));
}

#[test]
fn parse_rejects_junk() {
    assert_eq!(parse_led_value(""), Err(KbError::LedParse));
    assert_eq!(parse_led_value("\n"), Err(KbError::LedParse));
    assert_eq!(parse_led_value("+"), Err(KbError::LedParse));
    assert_eq!(parse_led_value("-3"), Err(KbError::LedParse));
    assert_eq!(parse_led_value("3a"), Err(KbError::LedParse));
    assert_eq!(parse_led_value("a3"), Err(KbError::LedParse));
    assert_eq!(parse_led_value("3 "), Err(KbError::LedParse));
    assert_eq!(parse_led_value("1\n2"), Err(KbError::LedParse));
}

#[test]
fn monitor_path_depends_on_existence() {
    let base = String::from("/sys/class/leds/kbd_backlight");
    assert_eq!(
        monitor_path(&base, true),
        Some(String::from(
            "/sys/class/leds/kbd_backlight/brightness_hw_changed"
        ))
    );
    assert_eq!(monitor_path(&base, false), None);
}

#[test]
fn led_paths() {
    let led = led_without_hw();
    assert_eq!(
        led.brightness_path(),
        String::from("/sys/class/leds/kbd_backlight/brightness")
    );
    assert_eq!(
        led.max_brightness_path(),
        String::from("/sys/class/leds/kbd_backlight/max_brightness")
    );
    assert_eq!(led.monitor_path(), &None);
    let led = led_with_hw();
    assert_eq!(
        led.monitor_path(),
        &Some(String::from(
            "/sys/class/leds/kbd_backlight/brightness_hw_changed"
        ))
    );
}

#[test]
fn brightness_updates_cache_on_success() {
    let mut led = led_without_hw();
    assert_eq!(led.brightness(1_000, RawRead::Content(String::from("4\n"))), Ok(4));
    assert_eq!(led.cache, Some(BrightnessCache { stamp: 1_000, value: 4 }));
}

#[test]
fn brightness_keeps_cache_on_failure() {
    let mut led = led_without_hw();
    led.cache = Some(BrightnessCache { stamp: 500, value: 2 });
    assert_eq!(led.brightness(1_000, RawRead::IoError), Err(KbError::LedIo));
    assert_eq!(led.cache, Some(BrightnessCache { stamp: 500, value: 2 }));
    assert_eq!(
        led.brightness(1_000, RawRead::Content(String::from("bogus"))),
        Err(KbError::LedParse)
    );
    assert_eq!(led.cache, Some(BrightnessCache { stamp: 500, value: 2 }));
}

#[test]
fn cache_served_without_read_when_hw_notified() {
    let mut led = led_with_hw();
    led.cache = Some(BrightnessCache { stamp: 0, value: 9 });
    // Arbitrarily old, but hardware notifications keep it trustworthy.
    assert!(!led.needs_fresh_read(1_000_000));
    assert_eq!(led.brightness_maybe_cached(1_000_000, None), Ok(9));
    assert_eq!(led.cache, Some(BrightnessCache { stamp: 0, value: 9 }));
}

#[test]
fn cache_served_while_young() {
    let mut led = led_without_hw();
    led.cache = Some(BrightnessCache { stamp: 9_500, value: 6 });
    // 999 ms old: still young enough.
    assert!(!led.needs_fresh_read(10_499));
    assert_eq!(led.brightness_maybe_cached(10_499, None), Ok(6));
    assert_eq!(led.cache, Some(BrightnessCache { stamp: 9_500, value: 6 }));
}

#[test]
fn stale_cache_takes_fresh_read() {
    let mut led = led_without_hw();
    led.cache = Some(BrightnessCache { stamp: 9_500, value: 6 });
    // Exactly 1000 ms old: no longer young, and no hardware notifications.
    assert!(led.needs_fresh_read(10_500));
    assert_eq!(
        led.brightness_maybe_cached(10_500, Some(RawRead::Content(String::from("7\n")))),
        Ok(7)
    );
    assert_eq!(led.cache, Some(BrightnessCache { stamp: 10_500, value: 7 }));
}

#[test]
fn empty_cache_takes_fresh_read() {
    let mut led = led_with_hw();
    assert!(led.needs_fresh_read(100));
    let mut led = led_without_hw();
    assert!(led.needs_fresh_read(100));
    assert_eq!(
        led.brightness_maybe_cached(100, Some(RawRead::IoError)),
        Err(KbError::LedIo)
    );
    assert_eq!(led.cache, None);
}

#[test]
fn set_brightness_learns_external_level_before_turning_off() {
    let mut led = led_without_hw();
    let mut state = state_at(1_000);
    assert!(led.needs_pre_read(0, true));
    let r = led.set_brightness(
        &mut state,
        0,
        true,
        Some(RawRead::Content(String::from("3\n"))),
        2_000,
    );
    assert_eq!(r, Ok(()));
    // The externally-set level 3 was adopted before writing 0.
    assert_eq!(state.requested_brightness, 3);
    assert_eq!(led.cache, Some(BrightnessCache { stamp: 2_000, value: 0 }));
}

#[test]
fn set_brightness_ignores_zero_pre_read() {
    let mut led = led_without_hw();
    let mut state = state_at(1_000);
    let r = led.set_brightness(
        &mut state,
        0,
        true,
        Some(RawRead::Content(String::from("0\n"))),
        2_000,
    );
    assert_eq!(r, Ok(()));
    assert_eq!(state.requested_brightness, 5);
    assert_eq!(led.cache, Some(BrightnessCache { stamp: 2_000, value: 0 }));
}

#[test]
fn set_brightness_pre_read_failure_changes_nothing() {
    let mut led = led_without_hw();
    let mut state = state_at(1_000);
    let r = led.set_brightness(&mut state, 0, true, Some(RawRead::IoError), 2_000);
    assert_eq!(r, Err(KbError::LedIo));
    assert_eq!(state.requested_brightness, 5);
    assert_eq!(led.cache, None);
    let r = led.set_brightness(
        &mut state,
        0,
        true,
        Some(RawRead::Content(String::from("what"))),
        2_000,
    );
    assert_eq!(r, Err(KbError::LedParse));
    assert_eq!(state.requested_brightness, 5);
    assert_eq!(led.cache, None);
}

#[test]
fn set_brightness_nonzero_needs_no_pre_read() {
    let mut led = led_without_hw();
    let mut state = state_at(1_000);
    assert!(!led.needs_pre_read(4, true));
    assert_eq!(led.set_brightness(&mut state, 4, true, None, 2_000), Ok(()));
    assert_eq!(state.requested_brightness, 5);
    assert_eq!(led.cache, Some(BrightnessCache { stamp: 2_000, value: 4 }));
}

#[test]
fn set_brightness_with_hw_notifications_needs_no_pre_read() {
    let mut led = led_with_hw();
    let mut state = state_at(1_000);
    assert!(!led.needs_pre_read(0, true));
    assert_eq!(led.set_brightness(&mut state, 0, true, None, 2_000), Ok(()));
    assert_eq!(state.requested_brightness, 5);
}

#[test]
fn set_brightness_non_adaptive_needs_no_pre_read() {
    let led = led_without_hw();
    assert!(!led.needs_pre_read(0, false));
}

#[test]
fn max_brightness_parses_the_read() {
    let led = led_without_hw();
    assert_eq!(led.max_brightness(RawRead::Content(String::from("255\n"))), Ok(255));
    assert_eq!(led.max_brightness(RawRead::IoError), Err(KbError::LedIo));
}
