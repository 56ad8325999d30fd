use inputspectrum::global_input::{
    is_event_device_name, is_non_keyboard_button, map_evdev_key, BackendPreference, CapturePlan,
    GlobalKeyEvent, EV_KEY, EV_REL,
};

#[test]
fn maps_key_press_and_repeat() {
    assert_eq!(map_evdev_key(EV_KEY, 30, 1), Some(GlobalKeyEvent { code: 30 }));
    assert_eq!(map_evdev_key(EV_KEY, 30, 2), Some(GlobalKeyEvent { code: 30 }));
}

#[test]
fn ignores_key_release() {
    assert_eq!(map_evdev_key(EV_KEY, 30, 0), None);
}

#[test]
fn ignores_mouse_buttons_and_motion() {
    assert_eq!(map_evdev_key(EV_KEY, 0x110, 1), None);
    assert_eq!(map_evdev_key(EV_KEY, 0x130, 1), None);
    assert_eq!(map_evdev_key(EV_KEY, 0x2c0, 1), None);
    assert_eq!(map_evdev_key(EV_REL, 0, 4), None);
}

#[test]
fn button_ranges_edges() {
    assert!(!is_non_keyboard_button(0xff));
    assert!(is_non_keyboard_button(0x100));
    assert!(is_non_keyboard_button(0x15f));
    assert!(!is_non_keyboard_button(0x160));
    assert!(is_non_keyboard_button(0x220));
    assert!(is_non_keyboard_button(0x223));
    assert!(!is_non_keyboard_button(0x224));
    assert!(is_non_keyboard_button(0x2ff));
    assert!(!is_non_keyboard_button(0x300));
    assert_eq!(map_evdev_key(EV_KEY, 0x160, 2), Some(GlobalKeyEvent { code: 0x160 }));
}

#[test]
fn backend_from_setting() {
    assert_eq!(BackendPreference::from_value(None), BackendPreference::Auto);
    assert_eq!(BackendPreference::from_value(Some("X11")), BackendPreference::X11);
    assert_eq!(BackendPreference::from_value(Some("EvDev")), BackendPreference::Evdev);
    assert_eq!(BackendPreference::from_value(Some("NONE")), BackendPreference::Disabled);
    assert_eq!(BackendPreference::from_value(Some("wayland")), BackendPreference::Auto);
    assert_eq!(BackendPreference::from_value(Some("x11 ")), BackendPreference::Auto);
}

#[test]
fn backend_names_round_trip() {
    for b in [
        BackendPreference::Auto,
        BackendPreference::X11,
        BackendPreference::Evdev,
        BackendPreference::Disabled,
    ] {
        assert_eq!(BackendPreference::from_value(Some(b.name())), b);
    }
    assert_eq!(BackendPreference::Disabled.name(), "none");
    assert_eq!(BackendPreference::Auto.name(), "auto");
}

#[test]
fn capture_plans() {
    assert_eq!(
        BackendPreference::Auto.capture_plan(),
        CapturePlan::X11ThenEvdev { timeout_millis: 700 }
    );
    assert_eq!(BackendPreference::X11.capture_plan(), CapturePlan::X11Only { timeout_millis: 2000 });
    assert_eq!(BackendPreference::Evdev.capture_plan(), CapturePlan::EvdevOnly);
    assert_eq!(BackendPreference::Disabled.capture_plan(), CapturePlan::NoCapture);
}

#[test]
fn event_device_names() {
    assert!(is_event_device_name("event0"));
    assert!(is_event_device_name("event12"));
    assert!(!is_event_device_name("mouse0"));
    assert!(!is_event_device_name("even"));
}
