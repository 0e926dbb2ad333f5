use keyboard_backlightd::config::Config;
use keyboard_backlightd::errors::KbError;
use keyboard_backlightd::resolver::DeviceRecord;
use keyboard_backlightd::setup::{setup_daemon, wait_deadline, wait_step, WaitStep};

fn config(inputs: &[&str], brightness: Option<u32>, adaptive: bool) -> Config {
    Config {
        monitor_input: inputs.iter().map(|p| String::from(*p)).collect(),
        led_base_dir: String::from("/sys/class/leds/kbd_backlight"),
        timeout: 500,
        brightness,
        adaptive,
        wait: None,
    }
}

fn keyboard_record(devnode: &str) -> DeviceRecord {
    DeviceRecord {
        devnode: Some(String::from(devnode)),
        properties: vec![String::from("ID_INPUT_KEYBOARD")],
    }
}

#[test]
fn setup_builds_the_device_list_and_initial_state() {
    let cfg = config(&["/dev/input/by-id/kbd"], Some(5), true);
    let canons = vec![String::from("/dev/input/event1")];
    let records = vec![
        keyboard_record("/dev/input/event1"),
        keyboard_record("/dev/input/event2"),
    ];
    let plan = setup_daemon(&cfg, &canons, &records, &None, 7_000).unwrap();
    // The provided path first, then the default it does not cover.
    assert_eq!(
        plan.devices,
        vec![
            String::from("/dev/input/by-id/kbd"),
            String::from("/dev/input/event2"),
        ]
    );
    assert_eq!(plan.initial_state.last_input, 7_000);
    assert_eq!(plan.initial_state.keep_until, None);
    assert_eq!(plan.initial_state.current_brightness, 0);
    assert_eq!(plan.initial_state.requested_brightness, 5);
    assert!(plan.use_software_listener);
    // Adaptive, but the LED reports no hardware-change path.
    assert!(!plan.use_hardware_listener);
}

#[test]
fn setup_defaults_the_brightness_to_one() {
    let cfg = config(&["/dev/input/event1"], None, true);
    let canons = vec![String::from("/dev/input/event1")];
    let plan = setup_daemon(&cfg, &canons, &vec![], &None, 0).unwrap();
    assert_eq!(plan.initial_state.requested_brightness, 1);
}

#[test]
fn setup_with_hardware_notifications_enables_both_listeners() {
    let cfg = config(&["/dev/input/event1"], Some(2), true);
    let canons = vec![String::from("/dev/input/event1")];
    let hw = Some(String::from(
        "/sys/class/leds/kbd_backlight/brightness_hw_changed",
    ));
    let plan = setup_daemon(&cfg, &canons, &vec![], &hw, 0).unwrap();
    assert!(plan.use_software_listener);
    assert!(plan.use_hardware_listener);
}

#[test]
fn setup_without_adaptive_mode_disables_both_listeners() {
    let cfg = config(&["/dev/input/event1"], Some(2), false);
    let canons = vec![String::from("/dev/input/event1")];
    let hw = Some(String::from(
        "/sys/class/leds/kbd_backlight/brightness_hw_changed",
    ));
    let plan = setup_daemon(&cfg, &canons, &vec![], &hw, 0).unwrap();
    assert!(!plan.use_software_listener);
    assert!(!plan.use_hardware_listener);
}

#[test]
fn setup_rejects_duplicate_configuration() {
    let cfg = config(&["/dev/input/event1", "event1-link"], None, true);
    let canons = vec![
        String::from("/dev/input/event1"),
        String::from("/dev/input/event1"),
    ];
    assert_eq!(
        setup_daemon(&cfg, &canons, &vec![], &None, 0),
        Err(KbError::DuplicateDevice {
            provided: String::from("event1-link"),
            canon: String::from("/dev/input/event1"),
        })
    );
}

#[test]
fn validate_requires_at_least_one_input() {
    let cfg = config(&[], None, true);
    assert_eq!(cfg.validate(), Err(KbError::NoMonitoredInputs));
    let cfg = config(&["/dev/input/event1"], None, true);
    assert_eq!(cfg.validate(), Ok(()));
}

#[test]
fn wait_deadline_saturates() {
    assert_eq!(wait_deadline(100, 200), 300);
    assert_eq!(wait_deadline(u64::MAX - 50, 100), u64::MAX);
}

#[test]
fn wait_step_polls_until_the_deadline() {
    let path = String::from("/sys/class/leds/kbd_backlight");
    assert_eq!(wait_step(&path, 5, 10, true), Ok(WaitStep::Ready));
    assert_eq!(wait_step(&path, 5, 10, false), Ok(WaitStep::Retry));
    // Once the window has closed the distinguished error is raised, whatever
    // the filesystem says now.
    assert_eq!(
        wait_step(&path, 10, 10, true),
        Err(KbError::IoFileNotFound { path: path.clone() })
    );
}
