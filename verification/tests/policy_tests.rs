use keyboard_backlightd::config::Config;
use keyboard_backlightd::led::{BrightnessCache, Led, RawRead};
use keyboard_backlightd::policy::{policy, run_policy, PolicyAction};
use keyboard_backlightd::state::State;

fn test_config(timeout: u64) -> Config {
    Config {
        monitor_input: vec![String::from("/dev/input/event0")],
        led_base_dir: String::from("/sys/class/leds/kbd_backlight"),
        timeout,
        brightness: None,
        adaptive: true,
        wait: None,
    }
}

fn fresh_state(now: u64, requested: u32) -> State {
    State {
        last_input: now,
        keep_until: None,
        current_brightness: 0,
        requested_brightness: requested,
    }
}

#[test]
fn policy_idle_at_least_timeout_turns_off() {
    let config = test_config(500);
    let mut state = fresh_state(1_000, 5);
    // Exactly the timeout, and well past it.
    for now in [1_500u64, 2_000, 1_000_000] {
        let actions = policy(&mut state, &config, now);
        assert_eq!(
            actions,
            vec![PolicyAction::SetLed(0), PolicyAction::Sleep(None)]
        );
    }
}

#[test]
fn policy_recent_input_keeps_brightness() {
    let config = test_config(500);
    let mut state = fresh_state(1_000, 5);
    let actions = policy(&mut state, &config, 1_200);
    assert_eq!(
        actions,
        vec![PolicyAction::SetLed(5), PolicyAction::Sleep(Some(300))]
    );
}

#[test]
fn policy_keep_override_wins_over_idle() {
    let config = test_config(500);
    let mut state = fresh_state(1_000, 7);
    state.keep_until = Some(10_000);
    // Far past the idle timeout, but the override still holds.
    let actions = policy(&mut state, &config, 9_000);
    assert_eq!(
        actions,
        vec![PolicyAction::SetLed(7), PolicyAction::Sleep(Some(1_000))]
    );
    assert_eq!(state.keep_until, Some(10_000));
}

#[test]
fn policy_clears_expired_keep_override() {
    let config = test_config(500);
    let mut state = fresh_state(1_000, 7);
    state.keep_until = Some(1_100);
    let actions = policy(&mut state, &config, 1_200);
    // Override expired: cleared, and the ordinary rules decide.
    assert_eq!(state.keep_until, None);
    assert_eq!(
        actions,
        vec![PolicyAction::SetLed(7), PolicyAction::Sleep(Some(300))]
    );
}

#[test]
fn policy_keep_override_boundary_is_inclusive() {
    let config = test_config(500);
    let mut state = fresh_state(1_000, 7);
    state.keep_until = Some(2_000);
    let actions = policy(&mut state, &config, 2_000);
    assert_eq!(
        actions,
        vec![PolicyAction::SetLed(7), PolicyAction::Sleep(Some(0))]
    );
}

#[test]
fn policy_scenario_input_then_idle_then_input() {
    // timeout = 500 ms, requested brightness 5, input just seen.
    let config = test_config(500);
    let mut state = fresh_state(10_000, 5);

    // Immediate call: LED on, wake again when the timeout would expire.
    let actions = policy(&mut state, &config, 10_000);
    assert_eq!(
        actions,
        vec![PolicyAction::SetLed(5), PolicyAction::Sleep(Some(500))]
    );

    // 500 ms later with no input: LED off, block indefinitely.
    let actions = policy(&mut state, &config, 10_500);
    assert_eq!(
        actions,
        vec![PolicyAction::SetLed(0), PolicyAction::Sleep(None)]
    );

    // An input event before the timeout elapses resets the cycle.
    state.last_input = 10_700;
    let actions = policy(&mut state, &config, 10_750);
    assert_eq!(
        actions,
        vec![PolicyAction::SetLed(5), PolicyAction::Sleep(Some(450))]
    );
}

#[test]
fn run_policy_refreshes_and_decides() {
    let config = test_config(500);
    let mut state = fresh_state(10_000, 5);
    let mut led = Led::new(String::from("/sys/class/leds/kbd_backlight"), None);

    // Empty cache: a fresh read is needed; it reports 3.
    assert!(led.needs_fresh_read(10_050));
    let out = run_policy(
        &mut state,
        &mut led,
        &config,
        10_050,
        Some(RawRead::Content(String::from("3\n"))),
    );
    assert_eq!(state.current_brightness, 3);
    assert_eq!(led.cache, Some(BrightnessCache { stamp: 10_050, value: 3 }));
    assert_eq!(out.set_value, 5);
    assert_eq!(out.sleep, Some(450));
    assert_eq!(out.refresh_error, None);
    // Writing a nonzero value needs no pre-read.
    assert!(!out.needs_pre_read);

    // Cache is now fresh: the next pass does not need a read.
    assert!(!led.needs_fresh_read(10_600));
    let out = run_policy(&mut state, &mut led, &config, 10_600, None);
    // Idle for 600 ms >= 500: turn off and block; turning off in adaptive
    // mode without hardware notifications needs the pre-read.
    assert_eq!(out.set_value, 0);
    assert_eq!(out.sleep, None);
    assert!(out.needs_pre_read);
    assert_eq!(state.current_brightness, 3);
}

#[test]
fn run_policy_read_failure_is_transient() {
    let config = test_config(500);
    let mut state = fresh_state(10_000, 5);
    state.current_brightness = 2;
    let mut led = Led::new(String::from("/sys/class/leds/kbd_backlight"), None);

    let out = run_policy(&mut state, &mut led, &config, 10_100, Some(RawRead::IoError));
    // The failure is reported, the previous observation kept, and the pass
    // still decides exactly one LED action and one sleep.
    assert!(out.refresh_error.is_some());
    assert_eq!(state.current_brightness, 2);
    assert_eq!(out.set_value, 5);
    assert_eq!(out.sleep, Some(400));
}
