use keyremapper::config::KeyRemapperConfiguration;
use keyremapper::devices::{EventsDescriptor, EvdevError, EventCodes};
use keyremapper::devmatch::{device_selected, NamePattern, UINPUT_DEVICE_NAME_PREFIX};
use keyremapper::ec;
use keyremapper::ec::EventType;
use keyremapper::event::InputEvent;
use keyremapper::hotplug::{should_ignore_hotplug, UdevAction, UdevError};
use keyremapper::input_state::InputState;
use keyremapper::lifecycle::{
    cooldown_jitter_ms, session_step, SessionAction, SessionEvent, SessionPhase,
};

#[test]
fn test_input_state_queries() {
    let mut input = InputState::new();
    assert_eq!(0, input.get_in_key_state(ec::KEY_A));
    assert!(!input.is_key_on(ec::KEY_A));
    assert!(!input.is_alt_on() && !input.is_ctrl_on() && !input.is_shift_on());
    assert!(!input.is_winkey_on() && !input.is_esc_on());

    input.on_event(&InputEvent::new_key_event(ec::KEY_RIGHTALT, 1));
    input.on_event(&InputEvent::new_key_event(ec::KEY_ESC, 1));
    assert!(input.is_alt_on());
    assert!(input.is_esc_on());
    assert!(!input.is_ctrl_on());

    input.on_event(&InputEvent::new_key_event(ec::KEY_RIGHTALT, 0));
    assert!(!input.is_alt_on());
}

#[test]
fn test_process_event_tags_modifiers() {
    let mut input = InputState::new();
    input.on_event(&InputEvent::new_key_event(ec::KEY_LEFTSHIFT, 1));
    let (tagged, emergency) = input.process_event(&InputEvent::new_key_event(ec::KEY_A, 1));
    assert!(tagged.with_shift());
    assert!(!tagged.with_alt());
    assert!(!emergency);
    assert!(tagged.with_modifiers("s"));
    assert!(!tagged.with_modifiers(""));
    // the raw fields survive tagging
    assert_eq!(ec::KEY_A, tagged.code);
    assert_eq!(1, tagged.value);
}

#[test]
fn test_emergency_combo_detection() {
    let mut input = InputState::new();
    let combo = [ec::KEY_Z, ec::KEY_X, ec::KEY_C, ec::KEY_LEFTSHIFT, ec::KEY_LEFTALT];
    for code in &combo[..combo.len() - 1] {
        let (_tagged, emergency) = input.process_event(&InputEvent::new_key_event(*code, 1));
        assert!(!emergency);
    }
    let (_tagged, emergency) =
        input.process_event(&InputEvent::new_key_event(ec::KEY_LEFTALT, 1));
    assert!(emergency);
    // releasing one key ends the emergency condition
    let (_tagged, emergency) = input.process_event(&InputEvent::new_key_event(ec::KEY_Z, 0));
    assert!(!emergency);
}

#[test]
fn test_session_transitions() {
    assert_eq!(
        (SessionPhase::InEventLoop, SessionAction::NotifyNoDevices),
        session_step(SessionPhase::Discovering, &SessionEvent::DevicesRefreshed { count: 0 })
    );
    assert_eq!(
        (SessionPhase::InEventLoop, SessionAction::NotifyDevicesDetected),
        session_step(SessionPhase::Discovering, &SessionEvent::DevicesRefreshed { count: 2 })
    );
    // a virtual-device change right after start is ignored
    assert_eq!(
        (SessionPhase::InEventLoop, SessionAction::Proceed),
        session_step(
            SessionPhase::InEventLoop,
            &SessionEvent::HotplugChange { elapsed_ms: 100, virtual_device: true }
        )
    );
    // any other change begins the cooldown
    assert_eq!(
        (SessionPhase::Cooldown, SessionAction::BeginCooldown),
        session_step(
            SessionPhase::InEventLoop,
            &SessionEvent::HotplugChange { elapsed_ms: 100, virtual_device: false }
        )
    );
    assert_eq!(
        (SessionPhase::Cooldown, SessionAction::BeginCooldown),
        session_step(
            SessionPhase::InEventLoop,
            &SessionEvent::HotplugChange { elapsed_ms: 60_000, virtual_device: true }
        )
    );
    assert_eq!(
        (SessionPhase::InEventLoop, SessionAction::RetryRead),
        session_step(SessionPhase::InEventLoop, &SessionEvent::DeviceReadFailed)
    );
    assert_eq!(
        (SessionPhase::InEventLoop, SessionAction::StopProcess),
        session_step(SessionPhase::InEventLoop, &SessionEvent::EmergencyCombo)
    );
    assert_eq!(
        (SessionPhase::Discovering, SessionAction::Proceed),
        session_step(SessionPhase::Cooldown, &SessionEvent::CooldownFinished)
    );
}

#[test]
fn test_cooldown_jitter_bounds() {
    for _ in 0..100 {
        let ms = cooldown_jitter_ms();
        assert!((1000..2000).contains(&ms));
    }
}

#[test]
fn test_should_ignore_hotplug() {
    assert!(should_ignore_hotplug(100, "/devices/virtual/input/input23"));
    assert!(!should_ignore_hotplug(100, "/devices/pci0000:00/usb1/input5"));
    assert!(!should_ignore_hotplug(5000, "/devices/virtual/input/input23"));
    assert!(!should_ignore_hotplug(2000, "/devices/virtual/input/input23"));
}

#[test]
fn test_udev_action_from_string() {
    assert!(matches!(UdevAction::from_string("add"), UdevAction::Add));
    assert!(matches!(UdevAction::from_string("remove"), UdevAction::Remove));
    match UdevAction::from_string("change") {
        UdevAction::Unknown(s) => assert_eq!("change", s.as_str()),
        _ => panic!("expected an unknown action"),
    }
}

#[test]
fn test_udev_errors() {
    match UdevError::from_errno("fcntl failed", 11) {
        UdevError::ErrnoError(m, e) => {
            assert_eq!("fcntl failed", m.as_str());
            assert_eq!(11, e);
        }
        _ => panic!("wrong variant"),
    }
    match UdevError::new_unknown_error("no device") {
        UdevError::UnknownError(m) => assert_eq!("no device", m.as_str()),
        _ => panic!("wrong variant"),
    }
    match UdevError::new_unknown_error_with_inner("open failed", "permission denied") {
        UdevError::UnknownErrorWithInner(m, inner) => {
            assert_eq!("open failed", m.as_str());
            assert_eq!("permission denied", inner.as_str());
        }
        _ => panic!("wrong variant"),
    }
}

#[test]
fn test_evdev_error_messages() {
    assert_eq!("Unable to grab device", EvdevError::DeviceGrabError.message().as_str());
    assert_eq!("Errno error: 16", EvdevError::ErrnoError(16).message().as_str());
    assert_eq!("Errno error: -5", EvdevError::ErrnoError(-5).message().as_str());
    assert_eq!("InternalEventDropped", EvdevError::InternalEventDropped.message().as_str());
}

#[test]
fn test_events_descriptor() {
    let empty = EventsDescriptor::new();
    assert!(empty.is_empty());

    let keys = EventsDescriptor::with_all_key_events();
    assert!(!keys.is_empty());
    assert_eq!(1, keys.events.len());
    assert_eq!(EventType::EvKey, keys.events[0].event_type);
    assert_eq!((ec::KEY_MAX + 1) as usize, keys.events[0].codes.len());
    assert_eq!(ec::KEY_A, keys.events[0].codes[ec::KEY_A as usize]);

    let mouse = EventsDescriptor::with_mouse_events();
    assert_eq!(2, mouse.events.len());
    assert_eq!(EventType::EvKey, mouse.events[0].event_type);
    assert_eq!(8, mouse.events[0].codes.len());
    assert_eq!(EventType::EvRel, mouse.events[1].event_type);
    assert_eq!(11, mouse.events[1].codes.len());

    // inserting for an existing type replaces its codes
    let mut d = EventsDescriptor::with_mouse_events();
    d.set_codes(EventType::EvKey, vec![ec::BTN_LEFT]);
    assert_eq!(2, d.events.len());
    assert_eq!(1, d.events[0].codes.len());
}

#[test]
fn test_name_pattern() {
    // an invalid pattern is reported, not compiled
    assert!(NamePattern::compile("foo(bar").is_none());
    let p = NamePattern::compile("^Moergo .*Keyboard$").unwrap();
    assert!(p.is_match("Moergo Glove80 Keyboard"));
    assert!(!p.is_match("Some Other Keyboard"));
    let empty = NamePattern::compile("").unwrap();
    assert!(empty.is_match("anything"));
}

#[test]
fn test_device_selected() {
    let name_re = NamePattern::compile("Glove80").unwrap();
    let id_re = NamePattern::compile("").unwrap();
    let keyboard_events = vec![
        EventCodes { event_type: EventType::EvSyn, codes: vec![0] },
        EventCodes { event_type: EventType::EvKey, codes: vec![ec::KEY_A] },
    ];

    // a matching keyboard is selected
    assert!(device_selected(
        "Moergo Glove80 Keyboard",
        "v1234 pabcd",
        &keyboard_events,
        0,
        &name_re,
        &id_re,
        "key-remapper-test",
        false,
        true,
    ));

    // a name that does not match the pattern is skipped
    assert!(!device_selected(
        "Generic Mouse",
        "v1234 pabcd",
        &keyboard_events,
        0,
        &name_re,
        &id_re,
        "key-remapper-test",
        false,
        true,
    ));

    // the session's own virtual devices are never re-opened
    assert!(!device_selected(
        "key-remapper-test-Glove80",
        "v1234 pabcd",
        &keyboard_events,
        0,
        &name_re,
        &id_re,
        "key-remapper-test",
        false,
        true,
    ));

    // a device with absolute axes is not a keyboard
    assert!(!device_selected(
        "Glove80 Touchpad",
        "v1234 pabcd",
        &keyboard_events,
        3,
        &name_re,
        &id_re,
        "key-remapper-test",
        false,
        true,
    ));

    // but it is taken when non-keyboard devices are allowed
    assert!(device_selected(
        "Glove80 Touchpad",
        "v1234 pabcd",
        &keyboard_events,
        3,
        &name_re,
        &id_re,
        "key-remapper-test",
        true,
        true,
    ));

    // a device with a non-keyboard event type is skipped
    let oddball = vec![EventCodes { event_type: EventType::EvAbs, codes: vec![0] }];
    assert!(!device_selected(
        "Glove80 Gamepad",
        "v1234 pabcd",
        &oddball,
        0,
        &name_re,
        &id_re,
        "key-remapper-test",
        false,
        true,
    ));

    // another instance's virtual device is refused in grab mode only
    let prefixed = format!("{}-other", UINPUT_DEVICE_NAME_PREFIX);
    assert!(!device_selected(
        prefixed.as_str(),
        "v1234 pabcd",
        &keyboard_events,
        0,
        &NamePattern::compile("").unwrap(),
        &id_re,
        "key-remapper-test",
        true,
        true,
    ));
    assert!(device_selected(
        prefixed.as_str(),
        "v1234 pabcd",
        &keyboard_events,
        0,
        &NamePattern::compile("").unwrap(),
        &id_re,
        "key-remapper-test",
        true,
        false,
    ));

    // an id that does not match the id pattern selects on the name alone
    let strict_id = NamePattern::compile("^v9999").unwrap();
    assert!(device_selected(
        "Glove80 Gamepad",
        "v1234 pabcd",
        &oddball,
        0,
        &name_re,
        &strict_id,
        "key-remapper-test",
        false,
        true,
    ));
}

#[test]
fn test_config_defaults() {
    let mut config = KeyRemapperConfiguration::new("Test Remapper", "^Glove80$");
    config.set_id_regex("v1234");
    config.set_use_system_tray(false);
    config.set_use_non_keyboard(false);
    config.set_defaults();

    assert_eq!("Test Remapper", config.name.as_str());
    assert_eq!("^Glove80$", config.device_name_regex.as_str());
    assert_eq!("v1234", config.id_regex.as_str());
    assert!(!config.use_system_tray);
    assert!(!config.use_non_keyboard);
    assert!(config.grab_devices);
    assert!(config.write_to_uinput);
    assert_eq!("Test_Remapper", config.global_lock_name.as_str());
    assert_eq!("-Test_Remapper", config.uinput_device_name_suffix.as_str());
    assert_eq!("key-remapper-Test_Remapper", config.uinput_devices_prefix.as_str());
    // the default output device supports every key
    assert_eq!(1, config.uinput_events.events.len());
    assert_eq!((ec::KEY_MAX + 1) as usize, config.uinput_events.events[0].codes.len());
}

#[test]
fn test_cleanse_name() {
    assert_eq!("a_b", keyremapper::config::cleanse_name("a  \t b").as_str());
    assert_eq!("_a_", keyremapper::config::cleanse_name(" a ").as_str());
    assert_eq!("plain", keyremapper::config::cleanse_name("plain").as_str());
    assert_eq!("", keyremapper::config::cleanse_name("").as_str());
}
