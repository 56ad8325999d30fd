//! System-wide keyboard input: which raw device events count as key
//! presses, and which capture backend the user asked for.
use vstd::prelude::*;
use crate::text::{ascii_lower_code, eq_ignoring_ascii_case, equals_ignore_ascii_case, has_prefix, starts_with};

verus! {

/// A key pressed anywhere on the system, by its hardware key code.
#[derive(Debug, Clone, Copy, PartialEq, Eq, Structural)]
pub struct GlobalKeyEvent {
    pub code: u16,
}

/// The kernel's input event type of key and button changes.
pub const EV_KEY: u16 = 0x01;

/// The kernel's input event type of relative motion (mice, wheels).
pub const EV_REL: u16 = 0x02;

/// Mouse, joystick and gamepad buttons, and the other non-keyboard button
/// ranges of the kernel's key codes.
pub open spec fn spec_is_non_keyboard_button(code: u16) -> bool {
    (0x100 <= code && code <= 0x15f) || (0x220 <= code && code <= 0x223) || (0x2c0 <= code
        && code <= 0x2ff)
}

/// Whether `code` is a button that is not a keyboard key.
pub fn is_non_keyboard_button(code: u16) -> (r: bool)
    ensures
        r == spec_is_non_keyboard_button(code),
{
    (0x100 <= code && code <= 0x15f) || (0x220 <= code && code <= 0x223) || (0x2c0 <= code && code
        <= 0x2ff)
}

/// The key press that a raw device event stands for: a keyboard key going
/// down (value 1) or repeating (value 2). Releases, buttons that are not
/// keyboard keys and every other event type stand for none.
pub open spec fn spec_map_evdev_key(event_type: u16, code: u16, value: i32) -> Option<GlobalKeyEvent> {
    if event_type == EV_KEY && (value == 1 || value == 2) && !spec_is_non_keyboard_button(code) {
        Some(GlobalKeyEvent { code })
    } else {
        None
    }
}

/// Only key events count: an event of any type but the key type, whatever
/// its code and value, is no key press; a key event is one exactly when it
/// goes down (1) or repeats (2) and is not a mouse, joystick or other
/// non-keyboard button, and then it carries its own code.
pub proof fn lemma_only_key_events_map(event_type: u16, code: u16, value: i32)
    ensures
        event_type != 1 ==> spec_map_evdev_key(event_type, code, value) is None,
        spec_map_evdev_key(event_type, code, value) is Some <==> (event_type == 1 && (value == 1
            || value == 2) && !((0x100 <= code <= 0x15f) || (0x220 <= code <= 0x223) || (0x2c0
            <= code <= 0x2ff))),
        spec_map_evdev_key(event_type, code, value) matches Some(e) ==> e.code == code,
{
}

/// Maps a raw input event (its type, code and value) to a key press.
pub fn map_evdev_key(event_type: u16, code: u16, value: i32) -> (r: Option<GlobalKeyEvent>)
    ensures
        r == spec_map_evdev_key(event_type, code, value),
        event_type != EV_KEY ==> r is None,
{
    if event_type == EV_KEY && (value == 1 || value == 2) && !is_non_keyboard_button(code) {
        Some(GlobalKeyEvent { code })
    } else {
        None
    }
}

/// Whether a file in the input device directory is an event device: its
/// name starts with `event`.
pub fn is_event_device_name(name: &str) -> (r: bool)
    ensures
        r == has_prefix(name@, "event"@),
{
    starts_with(name, "event")
}

/// Which system-wide capture the user asked for.
#[derive(Debug, Clone, Copy, PartialEq, Eq, Structural)]
pub enum BackendPreference {
    /// The X11 record extension, falling back to the input devices.
    Auto,
    X11,
    Evdev,
    /// No system-wide capture.
    Disabled,
}

/// The backend that a setting names, its case ignored: `x11`, `evdev` or
/// `none`; anything else, or no setting, means automatic.
pub open spec fn spec_backend_from_value(value: Option<Seq<char>>) -> BackendPreference {
    match value {
        Some(v) => {
            if eq_ignoring_ascii_case(v, "x11"@) {
                BackendPreference::X11
            } else if eq_ignoring_ascii_case(v, "evdev"@) {
                BackendPreference::Evdev
            } else if eq_ignoring_ascii_case(v, "none"@) {
                BackendPreference::Disabled
            } else {
                BackendPreference::Auto
            }
        },
        None => BackendPreference::Auto,
    }
}

/// The name of each backend.
pub open spec fn spec_backend_name(b: BackendPreference) -> Seq<char> {
    match b {
        BackendPreference::Auto => "auto"@,
        BackendPreference::X11 => "x11"@,
        BackendPreference::Evdev => "evdev"@,
        BackendPreference::Disabled => "none"@,
    }
}

/// How the capture is started for a backend preference: the X11 record
/// extension with the time it is given to come up, falling back to the input
/// devices or not, or the input devices alone, or nothing.
#[derive(Debug, Clone, Copy, PartialEq, Eq, Structural)]
pub enum CapturePlan {
    X11ThenEvdev { timeout_millis: u64 },
    X11Only { timeout_millis: u64 },
    EvdevOnly,
    NoCapture,
}

/// Automatic capture gives X11 700 ms and falls back to the input devices;
/// asking for X11 gives it 2 s and no fallback.
pub open spec fn spec_capture_plan(b: BackendPreference) -> CapturePlan {
    match b {
        BackendPreference::Auto => CapturePlan::X11ThenEvdev { timeout_millis: 700 },
        BackendPreference::X11 => CapturePlan::X11Only { timeout_millis: 2000 },
        BackendPreference::Evdev => CapturePlan::EvdevOnly,
        BackendPreference::Disabled => CapturePlan::NoCapture,
    }
}

/// Reading back the name of a backend gives that backend.
pub proof fn lemma_backend_name_round_trip(b: BackendPreference)
    ensures
        spec_backend_from_value(Some(spec_backend_name(b))) == b,
{
    reveal_strlit("auto");
    reveal_strlit("x11");
    reveal_strlit("evdev");
    reveal_strlit("none");
    let n = spec_backend_name(b);
    assert(eq_ignoring_ascii_case(n, n));
    if b != BackendPreference::X11 {
        if n.len() == 3 {
            assert(false);
        }
    }
    if b == BackendPreference::Auto || b == BackendPreference::Disabled {
        assert(!eq_ignoring_ascii_case(n, "evdev"@));
    }
    if b == BackendPreference::Auto {
        assert(ascii_lower_code(n[0]) != ascii_lower_code("none"@[0]));
    }
}

/// Settings that differ only in the case of ASCII letters choose the same
/// backend, and the names `x11`, `evdev` and `none` choose those backends;
/// no setting means automatic.
pub proof fn lemma_backend_setting_ignores_case(v: Seq<char>, w: Seq<char>)
    requires
        eq_ignoring_ascii_case(v, w),
    ensures
        spec_backend_from_value(Some(v)) == spec_backend_from_value(Some(w)),
        spec_backend_from_value(Some("x11"@)) == BackendPreference::X11,
        spec_backend_from_value(Some("evdev"@)) == BackendPreference::Evdev,
        spec_backend_from_value(Some("none"@)) == BackendPreference::Disabled,
        spec_backend_from_value(None) == BackendPreference::Auto,
{
    lemma_backend_name_round_trip(BackendPreference::X11);
    lemma_backend_name_round_trip(BackendPreference::Evdev);
    lemma_backend_name_round_trip(BackendPreference::Disabled);
    let names = seq!["x11"@, "evdev"@, "none"@];
    assert forall|k: int| 0 <= k < 3 implies eq_ignoring_ascii_case(v, #[trigger] names[k])
        == eq_ignoring_ascii_case(w, names[k]) by {
        let n = names[k];
        if eq_ignoring_ascii_case(v, n) {
            assert forall|i: int| 0 <= i < w.len() implies ascii_lower_code(#[trigger] w[i])
                == ascii_lower_code(n[i]) by {
                assert(ascii_lower_code(v[i]) == ascii_lower_code(w[i]));
                assert(ascii_lower_code(v[i]) == ascii_lower_code(n[i]));
            }
        }
        if eq_ignoring_ascii_case(w, n) {
            assert forall|i: int| 0 <= i < v.len() implies ascii_lower_code(#[trigger] v[i])
                == ascii_lower_code(n[i]) by {
                assert(ascii_lower_code(v[i]) == ascii_lower_code(w[i]));
                assert(ascii_lower_code(w[i]) == ascii_lower_code(n[i]));
            }
        }
    }
    assert(names[0] == "x11"@ && names[1] == "evdev"@ && names[2] == "none"@);
}

impl BackendPreference {
    /// How the capture is started for this preference.
    pub fn capture_plan(self) -> (r: CapturePlan)
        ensures
            r == spec_capture_plan(self),
    {
        match self {
            BackendPreference::Auto => CapturePlan::X11ThenEvdev { timeout_millis: 700 },
            BackendPreference::X11 => CapturePlan::X11Only { timeout_millis: 2000 },
            BackendPreference::Evdev => CapturePlan::EvdevOnly,
            BackendPreference::Disabled => CapturePlan::NoCapture,
        }
    }

    /// The backend that the setting `value` asks for.
    pub fn from_value(value: Option<&str>) -> (r: BackendPreference)
        ensures
            r == spec_backend_from_value(
                match value {
                    Some(v) => Some(v@),
                    None => None,
                },
            ),
    {
        match value {
            Some(v) => {
                if equals_ignore_ascii_case(v, "x11") {
                    BackendPreference::X11
                } else if equals_ignore_ascii_case(v, "evdev") {
                    BackendPreference::Evdev
                } else if equals_ignore_ascii_case(v, "none") {
                    BackendPreference::Disabled
                } else {
                    BackendPreference::Auto
                }
            },
            None => BackendPreference::Auto,
        }
    }

    /// The backend's name.
    pub fn name(self) -> (r: &'static str)
        ensures
            r@ == spec_backend_name(self),
    {
        match self {
            BackendPreference::Auto => "auto",
            BackendPreference::X11 => "x11",
            BackendPreference::Evdev => "evdev",
            BackendPreference::Disabled => "none",
        }
    }
}

} // verus!
