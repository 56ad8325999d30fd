//! The application state of the spectrum wall: drawing mode and theme, the
//! pause switch, the key counters and labels, the wave phase and the window
//! of recent events, and how a key press changes them.
//!
//! The energy levels of the bands are real numbers that this state does not
//! hold; a press that excites the wall hands back a `WavePacket` that names
//! the bands to raise and by which step of the bell and the shimmer.
use vstd::prelude::*;
use vstd::arithmetic::div_mod::{lemma_add_mod_noop, lemma_mod_multiples_vanish};
use crate::events::{EventWindow, lemma_record_bounded, lemma_record_keeps_now, spec_prune, spec_record};
use crate::keys::{
    KeyCode, KeyEvent, KeyModifiers, is_special_key, key_label, key_to_band, dynamic_key_band,
    spec_dynamic_key_band, spec_is_special_key, spec_key_label, spec_key_to_band,
};
use crate::global_input::GlobalKeyEvent;
use crate::text::{decimal_chars, decimal_string};

verus! {

/// The fewest bands the wall has.
pub const MIN_BARS: usize = 8;

/// The most bands the wall has.
pub const MAX_BARS: usize = 240;

/// How many bands on each side of its centre a wave packet reaches.
pub const WAVE_SPREAD: usize = 7;

/// How the spectrum wall is drawn.
#[derive(Debug, Clone, Copy, PartialEq, Eq, Structural)]
pub enum Mode {
    Bars,
    Wave,
    Peaks,
}

impl Mode {
    /// The mode that follows this one in the cycle bars, wave, peaks.
    pub open spec fn spec_next(self) -> Mode {
        match self {
            Mode::Bars => Mode::Wave,
            Mode::Wave => Mode::Peaks,
            Mode::Peaks => Mode::Bars,
        }
    }

    /// Switches to the next mode: bars, then wave, then peaks, then bars again.
    pub fn next(self) -> (r: Mode)
        ensures
            r == self.spec_next(),
    {
        match self {
            Mode::Bars => Mode::Wave,
            Mode::Wave => Mode::Peaks,
            Mode::Peaks => Mode::Bars,
        }
    }
}

/// The colour scheme of the wall.
#[derive(Debug, Clone, Copy, PartialEq, Eq, Structural)]
pub enum Theme {
    Nord,
    Mono,
    Amber,
}

/// What kind of input last excited a band.
#[derive(Debug, Clone, Copy, PartialEq, Eq, Structural)]
pub enum EventKind {
    Key,
    SpecialKey,
}

/// The settings the wall starts with.
#[derive(Debug, Clone, Copy, PartialEq, Eq, Structural)]
pub struct AppConfig {
    pub bars: usize,
    pub fps: u16,
    pub theme: Theme,
    pub mode: Mode,
}

impl AppConfig {
    /// 120 bands at 30 frames a second, the nord theme and the bars mode.
    pub open spec fn spec_default() -> AppConfig {
        AppConfig { bars: 120, fps: 30, theme: Theme::Nord, mode: Mode::Bars }
    }
}

impl Default for AppConfig {
    fn default() -> (r: AppConfig)
        ensures
            r == AppConfig::spec_default(),
    {
        AppConfig { bars: 120, fps: 30, theme: Theme::Nord, mode: Mode::Bars }
    }
}

/// What the main loop should do after a terminal key.
#[derive(Debug, Clone, Copy, PartialEq, Eq, Structural)]
pub enum AppCommand {
    /// Nothing beyond what the key did to the wall.
    Continue,
    /// The key changed a setting; system-wide input is briefly ignored so
    /// that the same key press is not counted twice.
    ControlHandled,
    /// Leave the program.
    Quit,
}

/// One band that a wave packet raises.
#[derive(Debug, Clone, Copy, PartialEq, Eq, Structural)]
pub struct WaveTarget {
    /// The band.
    pub index: usize,
    /// How far the band lies from the packet's centre, which sets the bell.
    pub distance: usize,
    /// The step of the shimmer, from 0 to 6.
    pub shimmer: usize,
}

/// The bands that one input event raises: the bell of bands around the
/// centre, in order from the furthest left to the furthest right, then an
/// echo a third of the wall away.
#[derive(Debug)]
pub struct WavePacket {
    pub kind: EventKind,
    pub targets: Vec<WaveTarget>,
    pub echo: usize,
    /// How many events the window held once this one was recorded; the
    /// more, the stronger the packet.
    pub recent_events: usize,
}

/// What a terminal key asks of the energy levels, beyond the state.
#[derive(Debug)]
pub enum KeyEffect {
    Nothing,
    RaiseSensitivity,
    LowerSensitivity,
    Inject(WavePacket),
}

/// What a terminal key means.
#[derive(Debug, Clone, Copy, PartialEq, Eq, Structural)]
pub enum KeyAction {
    Quit,
    TogglePause,
    NextMode,
    SelectTheme(Theme),
    RaiseSensitivity,
    LowerSensitivity,
    /// Any other key excites the wall.
    Press,
}

/// `q`, Esc and control-c quit; space pauses; tab switches the mode; `1`,
/// `2` and `3` choose the nord, mono and amber themes; `+` or `=` raise the
/// sensitivity and `-` or `_` lower it; every other key excites the wall.
pub open spec fn key_action(key: KeyEvent) -> KeyAction {
    match key.code {
        KeyCode::Char(c) => {
            if c == 'q' {
                KeyAction::Quit
            } else if c == 'c' && key.modifiers.has_control() {
                KeyAction::Quit
            } else if c == ' ' {
                KeyAction::TogglePause
            } else if c == '1' {
                KeyAction::SelectTheme(Theme::Nord)
            } else if c == '2' {
                KeyAction::SelectTheme(Theme::Mono)
            } else if c == '3' {
                KeyAction::SelectTheme(Theme::Amber)
            } else if c == '+' || c == '=' {
                KeyAction::RaiseSensitivity
            } else if c == '-' || c == '_' {
                KeyAction::LowerSensitivity
            } else {
                KeyAction::Press
            }
        },
        KeyCode::Esc => KeyAction::Quit,
        KeyCode::Tab => KeyAction::NextMode,
        _ => KeyAction::Press,
    }
}

/// What a terminal key means, as `key_action` gives it.
pub fn classify_key(key: KeyEvent) -> (r: KeyAction)
    ensures
        r == key_action(key),
{
    match key.code {
        KeyCode::Char('q') | KeyCode::Esc => KeyAction::Quit,
        KeyCode::Char('c') if key.modifiers.contains(KeyModifiers::control()) => KeyAction::Quit,
        KeyCode::Char(' ') => KeyAction::TogglePause,
        KeyCode::Tab => KeyAction::NextMode,
        KeyCode::Char('1') => KeyAction::SelectTheme(Theme::Nord),
        KeyCode::Char('2') => KeyAction::SelectTheme(Theme::Mono),
        KeyCode::Char('3') => KeyAction::SelectTheme(Theme::Amber),
        KeyCode::Char('+') | KeyCode::Char('=') => KeyAction::RaiseSensitivity,
        KeyCode::Char('-') | KeyCode::Char('_') => KeyAction::LowerSensitivity,
        _ => KeyAction::Press,
    }
}

/// The keys that change a setting rather than exciting the wall.
pub open spec fn is_control_action(a: KeyAction) -> bool {
    !(a is Quit) && !(a is Press)
}

/// The label shown after a setting key.
pub open spec fn control_label(a: KeyAction) -> Seq<char> {
    match a {
        KeyAction::TogglePause => "space"@,
        KeyAction::NextMode => "tab"@,
        KeyAction::SelectTheme(Theme::Nord) => "1"@,
        KeyAction::SelectTheme(Theme::Mono) => "2"@,
        KeyAction::SelectTheme(Theme::Amber) => "3"@,
        KeyAction::RaiseSensitivity => "+"@,
        KeyAction::LowerSensitivity => "-"@,
        _ => Seq::empty(),
    }
}

/// The kind of event that a key press is.
pub open spec fn press_kind(code: KeyCode) -> EventKind {
    if spec_is_special_key(code) {
        EventKind::SpecialKey
    } else {
        EventKind::Key
    }
}

/// The state of the wall, as the contracts speak of it.
pub struct AppStateView {
    pub mode: Mode,
    pub theme: Theme,
    pub paused: bool,
    pub event_count: u64,
    pub key_count: u64,
    pub last_event: Option<EventKind>,
    pub last_key_label: Seq<char>,
    pub band_count: usize,
    pub phase: usize,
    pub events: Seq<u64>,
}

/// The state after a setting key: the setting changed and the label set.
pub open spec fn spec_control(s: AppStateView, a: KeyAction) -> AppStateView {
    match a {
        KeyAction::TogglePause => AppStateView { paused: !s.paused, last_key_label: control_label(a), ..s },
        KeyAction::NextMode => AppStateView { mode: s.mode.spec_next(), last_key_label: control_label(a), ..s },
        KeyAction::SelectTheme(t) => AppStateView { theme: t, last_key_label: control_label(a), ..s },
        KeyAction::RaiseSensitivity => AppStateView { last_key_label: control_label(a), ..s },
        KeyAction::LowerSensitivity => AppStateView { last_key_label: control_label(a), ..s },
        _ => s,
    }
}

/// The state after a wave packet of `kind` at `now`: the event recorded in
/// the window, the phase advanced by five plus the number of recent events,
/// one more event counted and `kind` remembered.
pub open spec fn spec_pulse(s: AppStateView, kind: EventKind, now: u64) -> AppStateView {
    let events = spec_record(s.events, now);
    AppStateView {
        events: events,
        phase: s.phase.wrapping_add((5 + events.len()) as usize),
        event_count: (s.event_count + 1) as u64,
        last_event: Some(kind),
        ..s
    }
}

/// The state after an exciting key: a packet, one more key counted and the
/// key's label.
pub open spec fn spec_press(s: AppStateView, code: KeyCode, now: u64) -> AppStateView {
    let p = spec_pulse(s, press_kind(code), now);
    AppStateView { key_count: (s.key_count + 1) as u64, last_key_label: spec_key_label(code), ..p }
}

/// The state after a system-wide key press: a packet, one more key counted
/// and the label `key:` followed by the key's code.
pub open spec fn spec_global_key(s: AppStateView, code: u16, now: u64) -> AppStateView {
    let p = spec_pulse(s, EventKind::Key, now);
    AppStateView {
        key_count: (s.key_count + 1) as u64,
        last_key_label: "key:"@ + decimal_chars(code as nat),
        ..p
    }
}

/// The band at the centre of a packet aimed at `band_index`.
pub open spec fn wave_center(band_index: usize, band_count: usize) -> int {
    if band_index < band_count {
        band_index as int
    } else {
        band_count - 1
    }
}

/// How far the phase shifts a packet: from 5 bands left to 5 bands right.
pub open spec fn wave_drift(phase: usize) -> int {
    (phase % 11) as int - 5
}

/// The `k`-th target of a packet: `k - 7` bands from the drifted centre,
/// wrapping around the wall.
pub open spec fn target_ok(t: WaveTarget, k: int, center: int, drift: int, len: int, phase: usize) -> bool {
    &&& t.index == (center + (k - 7) + drift) % len
    &&& t.distance == (if k < 7 { 7 - k } else { k - 7 })
    &&& t.shimmer == (phase + t.index) % 7
}

/// `p` is the packet of `kind` aimed at `band_index` on a wall of
/// `band_count` bands, at wave phase `phase`, with `recent` events in the
/// window: fifteen bands from 7 left to 7 right of the drifted centre, then
/// the echo a third of the wall beyond three times the drift.
pub open spec fn packet_matches(
    p: WavePacket,
    kind: EventKind,
    band_index: usize,
    band_count: usize,
    phase: usize,
    recent: int,
) -> bool {
    let center = wave_center(band_index, band_count);
    let drift = wave_drift(phase);
    let len = band_count as int;
    &&& p.kind == kind
    &&& p.targets@.len() == 2 * WAVE_SPREAD + 1
    &&& forall|k: int| 0 <= k < 2 * WAVE_SPREAD + 1 ==> target_ok(#[trigger] p.targets@[k], k, center, drift, len, phase)
    &&& p.echo == (center + drift * 3 + len / 3) % len
    &&& p.recent_events == recent
}

/// Three mode switches bring the wall back to the mode it started in, and
/// every switch changes the mode.
pub proof fn lemma_mode_cycle(m: Mode)
    ensures
        m.spec_next().spec_next().spec_next() == m,
        m.spec_next() != m,
{
}

/// Only `q`, Esc and control-c quit: a key quits exactly when it is `q`,
/// Esc, or `c` with the control bit held; a character other than `q`, `c`,
/// space, `1`, `2`, `3`, `+`, `=`, `-` and `_` excites the wall whatever
/// modifiers are held, and so does `c` without control.
pub proof fn lemma_only_quit_keys_quit(key: KeyEvent)
    ensures
        key_action(key) is Quit <==> (key.code == KeyCode::Char('q') || key.code == KeyCode::Esc || (
        key.code == KeyCode::Char('c') && key.modifiers.bits & 2u8 == 2u8)),
        key.code matches KeyCode::Char(c) && c != 'q' && c != 'c' && c != ' ' && c != '1' && c != '2'
            && c != '3' && c != '+' && c != '=' && c != '-' && c != '_' ==> key_action(key)
            == KeyAction::Press,
        key.code == KeyCode::Char('c') && key.modifiers.bits & 2u8 != 2u8 ==> key_action(key)
            == KeyAction::Press,
{
}

/// What each setting key does: space flips the pause, tab moves to the next
/// mode, `1`, `2` and `3` choose the nord, mono and amber themes, `+` and `=`
/// (raise) and `-` and `_` (lower) only set the label; each shows its label
/// and leaves everything else as it was, whatever modifiers are held.
pub proof fn lemma_setting_key_effects(s: AppStateView, m: KeyModifiers)
    ensures
        spec_control(s, key_action(KeyEvent { code: KeyCode::Char(' '), modifiers: m })) == (AppStateView {
            paused: !s.paused,
            last_key_label: "space"@,
            ..s
        }),
        spec_control(s, key_action(KeyEvent { code: KeyCode::Tab, modifiers: m })) == (AppStateView {
            mode: s.mode.spec_next(),
            last_key_label: "tab"@,
            ..s
        }),
        spec_control(s, key_action(KeyEvent { code: KeyCode::Char('1'), modifiers: m })) == (AppStateView {
            theme: Theme::Nord,
            last_key_label: "1"@,
            ..s
        }),
        spec_control(s, key_action(KeyEvent { code: KeyCode::Char('2'), modifiers: m })) == (AppStateView {
            theme: Theme::Mono,
            last_key_label: "2"@,
            ..s
        }),
        spec_control(s, key_action(KeyEvent { code: KeyCode::Char('3'), modifiers: m })) == (AppStateView {
            theme: Theme::Amber,
            last_key_label: "3"@,
            ..s
        }),
        key_action(KeyEvent { code: KeyCode::Char('+'), modifiers: m }) is RaiseSensitivity,
        key_action(KeyEvent { code: KeyCode::Char('='), modifiers: m }) is RaiseSensitivity,
        key_action(KeyEvent { code: KeyCode::Char('-'), modifiers: m }) is LowerSensitivity,
        key_action(KeyEvent { code: KeyCode::Char('_'), modifiers: m }) is LowerSensitivity,
        spec_control(s, key_action(KeyEvent { code: KeyCode::Char('+'), modifiers: m })) == (AppStateView {
            last_key_label: "+"@,
            ..s
        }),
        spec_control(s, key_action(KeyEvent { code: KeyCode::Char('='), modifiers: m })) == (AppStateView {
            last_key_label: "+"@,
            ..s
        }),
        spec_control(s, key_action(KeyEvent { code: KeyCode::Char('-'), modifiers: m })) == (AppStateView {
            last_key_label: "-"@,
            ..s
        }),
        spec_control(s, key_action(KeyEvent { code: KeyCode::Char('_'), modifiers: m })) == (AppStateView {
            last_key_label: "-"@,
            ..s
        }),
{
}

/// A key that excites the wall counts one key and one event, remembers its
/// kind (special unless it types a character), shows its label, records
/// `now` as the newest event, and changes neither mode, theme, pause nor the
/// number of bands.
pub proof fn lemma_press_counts(s: AppStateView, code: KeyCode, now: u64)
    requires
        s.key_count < u64::MAX,
        s.event_count < u64::MAX,
    ensures
        spec_press(s, code, now).key_count == s.key_count + 1,
        spec_press(s, code, now).event_count == s.event_count + 1,
        spec_press(s, code, now).last_event == Some(
            if code is Char {
                EventKind::Key
            } else {
                EventKind::SpecialKey
            },
        ),
        spec_press(s, code, now).last_key_label == spec_key_label(code),
        spec_press(s, code, now).events.len() > 0,
        spec_press(s, code, now).events.last() == now,
        spec_press(s, code, now).mode == s.mode,
        spec_press(s, code, now).theme == s.theme,
        spec_press(s, code, now).paused == s.paused,
        spec_press(s, code, now).band_count == s.band_count,
{
    lemma_record_keeps_now(s.events, now);
}

/// A system-wide key counts one key and one event of the key kind, is
/// labelled `key:` and its code in decimal, and records `now` as the newest
/// event.
pub proof fn lemma_global_key_counts(s: AppStateView, code: u16, now: u64)
    requires
        s.key_count < u64::MAX,
        s.event_count < u64::MAX,
    ensures
        spec_global_key(s, code, now).key_count == s.key_count + 1,
        spec_global_key(s, code, now).event_count == s.event_count + 1,
        spec_global_key(s, code, now).last_event == Some(EventKind::Key),
        spec_global_key(s, code, now).last_key_label == "key:"@ + decimal_chars(code as nat),
        spec_global_key(s, code, now).events.len() > 0,
        spec_global_key(s, code, now).events.last() == now,
        spec_global_key(s, code, now).mode == s.mode,
        spec_global_key(s, code, now).theme == s.theme,
        spec_global_key(s, code, now).paused == s.paused,
{
    lemma_record_keeps_now(s.events, now);
}

/// A band count already in range is kept; below the range it is 8, above
/// it 240.
pub proof fn lemma_band_count_clamps(bars: usize)
    ensures
        8 <= bars <= 240 ==> spec_band_count(bars) == bars,
        bars < 8 ==> spec_band_count(bars) == 8,
        bars > 240 ==> spec_band_count(bars) == 240,
{
}

/// Pressing space twice leaves the wall as it was, but for the label.
pub proof fn lemma_pause_toggle_twice(s: AppStateView)
    ensures
        spec_control(spec_control(s, KeyAction::TogglePause), KeyAction::TogglePause) == (AppStateView {
            last_key_label: "space"@,
            ..s
        }),
{
}

/// A setting key excites nothing: it counts no event and no key, records
/// nothing in the window and moves neither the phase nor the last event.
pub proof fn lemma_setting_keys_leave_counts(s: AppStateView, a: KeyAction)
    ensures
        spec_control(s, a).event_count == s.event_count,
        spec_control(s, a).key_count == s.key_count,
        spec_control(s, a).events == s.events,
        spec_control(s, a).phase == s.phase,
        spec_control(s, a).last_event == s.last_event,
        spec_control(s, a).band_count == s.band_count,
{
}

/// Every band that a packet raises lies on the wall.
pub proof fn lemma_packet_in_range(
    p: WavePacket,
    kind: EventKind,
    band_index: usize,
    band_count: usize,
    phase: usize,
    recent: int,
)
    requires
        band_count > 0,
        packet_matches(p, kind, band_index, band_count, phase, recent),
    ensures
        forall|k: int| 0 <= k < p.targets@.len() ==> #[trigger] p.targets@[k].index < band_count,
        p.echo < band_count,
{
    assert forall|k: int| 0 <= k < p.targets@.len() implies #[trigger] p.targets@[k].index < band_count by {
        assert(target_ok(p.targets@[k], k, wave_center(band_index, band_count), wave_drift(phase), band_count as int, phase));
    }
}

/// The bands of a packet aimed at `band_index`, at phase `phase`.
fn build_packet(kind: EventKind, band_index: usize, band_count: usize, phase: usize, recent: usize) -> (p: WavePacket)
    requires
        0 < band_count <= MAX_BARS,
    ensures
        packet_matches(p, kind, band_index, band_count, phase, recent as int),
        forall|k: int| 0 <= k < p.targets@.len() ==> #[trigger] p.targets@[k].index < band_count,
        p.echo < band_count,
{
    let len = band_count;
    let center: usize = if band_index < len { band_index } else { len - 1 };
    let d5: usize = phase % 11;
    let ghost g_center = wave_center(band_index, band_count);
    let ghost g_drift = wave_drift(phase);
    let mut targets: Vec<WaveTarget> = Vec::new();
    let mut k: usize = 0;
    while k < 2 * WAVE_SPREAD + 1
        invariant
            0 < len <= MAX_BARS,
            len == band_count,
            center < len,
            center == g_center,
            d5 < 11,
            d5 - 5 == g_drift,
            k <= 2 * WAVE_SPREAD + 1,
            targets@.len() == k,
            forall|j: int| 0 <= j < k ==> target_ok(#[trigger] targets@[j], j, g_center, g_drift, len as int, phase),
            forall|j: int| 0 <= j < k ==> #[trigger] targets@[j].index < len,
        decreases 2 * WAVE_SPREAD + 1 - k,
    {
        let index = (center + k + d5 + 12 * len - 12) % len;
        proof {
            lemma_mod_multiples_vanish(12, center + k + d5 - 12, len as int);
            assert(center + k + d5 + 12 * len - 12 == len * 12 + (center + k + d5 - 12));
            assert(center + (k - 7) + (d5 - 5) == center + k + d5 - 12);
            lemma_add_mod_noop(phase as int, index as int, 7);
        }
        let distance: usize = if k < WAVE_SPREAD { WAVE_SPREAD - k } else { k - WAVE_SPREAD };
        let shimmer = (phase % 7 + index % 7) % 7;
        targets.push(WaveTarget { index, distance, shimmer });
        k = k + 1;
    }
    let echo = (center + 3 * d5 + len / 3 + 15 * len - 15) % len;
    proof {
        lemma_mod_multiples_vanish(15, center + 3 * d5 + len / 3 - 15, len as int);
        assert(center + 3 * d5 + len / 3 + 15 * len - 15 == len * 15 + (center + 3 * d5 + len / 3 - 15));
        assert(center + (d5 - 5) * 3 + len / 3 == center + 3 * d5 + len / 3 - 15);
    }
    WavePacket { kind, targets, echo, recent_events: recent }
}

/// The non-numeric state of the spectrum wall.
#[derive(Debug)]
pub struct AppState {
    mode: Mode,
    theme: Theme,
    paused: bool,
    event_count: u64,
    key_count: u64,
    last_event: Option<EventKind>,
    last_key_label: String,
    band_count: usize,
    phase: usize,
    events: EventWindow,
}

impl View for AppState {
    type V = AppStateView;

    closed spec fn view(&self) -> AppStateView {
        AppStateView {
            mode: self.mode,
            theme: self.theme,
            paused: self.paused,
            event_count: self.event_count,
            key_count: self.key_count,
            last_event: self.last_event,
            last_key_label: self.last_key_label@,
            band_count: self.band_count,
            phase: self.phase,
            events: self.events@,
        }
    }
}

/// The number of bands for a requested number of bars: clamped to the
/// range from `MIN_BARS` to `MAX_BARS`.
pub open spec fn spec_band_count(bars: usize) -> usize {
    if bars < MIN_BARS {
        MIN_BARS
    } else if bars > MAX_BARS {
        MAX_BARS
    } else {
        bars
    }
}

impl AppState {
    #[verifier::type_invariant]
    spec fn band_count_in_range(self) -> bool {
        MIN_BARS <= self.band_count <= MAX_BARS
    }

    /// A fresh wall for `config`: its bands clamped to between 8 and 240,
    /// its mode and theme, not paused, nothing counted, the label `-`.
    pub fn new(config: AppConfig) -> (r: AppState)
        ensures
            r@.mode == config.mode,
            r@.theme == config.theme,
            !r@.paused,
            r@.event_count == 0,
            r@.key_count == 0,
            r@.last_event is None,
            r@.last_key_label == "-"@,
            r@.band_count == spec_band_count(config.bars),
            8 <= config.bars <= 240 ==> r@.band_count == config.bars,
            config.bars < 8 ==> r@.band_count == 8,
            config.bars > 240 ==> r@.band_count == 240,
            r@.phase == 0,
            r@.events == Seq::<u64>::empty(),
    {
        let band_count = if config.bars < MIN_BARS {
            MIN_BARS
        } else if config.bars > MAX_BARS {
            MAX_BARS
        } else {
            config.bars
        };
        AppState {
            mode: config.mode,
            theme: config.theme,
            paused: false,
            event_count: 0,
            key_count: 0,
            last_event: None,
            last_key_label: String::from_str("-"),
            band_count,
            phase: 0,
            events: EventWindow::new(),
        }
    }

    pub fn mode(&self) -> (r: Mode)
        ensures
            r == self@.mode,
    {
        self.mode
    }

    pub fn theme(&self) -> (r: Theme)
        ensures
            r == self@.theme,
    {
        self.theme
    }

    pub fn paused(&self) -> (r: bool)
        ensures
            r == self@.paused,
    {
        self.paused
    }

    pub fn event_count(&self) -> (r: u64)
        ensures
            r == self@.event_count,
    {
        self.event_count
    }

    pub fn key_count(&self) -> (r: u64)
        ensures
            r == self@.key_count,
    {
        self.key_count
    }

    pub fn last_event(&self) -> (r: Option<EventKind>)
        ensures
            r == self@.last_event,
    {
        self.last_event
    }

    pub fn last_key_label(&self) -> (r: &str)
        ensures
            r@ == self@.last_key_label,
    {
        self.last_key_label.as_str()
    }

    /// How many bands the wall has; always between 8 and 240.
    pub fn band_count(&self) -> (r: usize)
        ensures
            r == self@.band_count,
            MIN_BARS <= r <= MAX_BARS,
    {
        proof {
            use_type_invariant(self);
        }
        self.band_count
    }

    /// How many events the window holds.
    pub fn recent_event_count(&self) -> (r: usize)
        ensures
            r == self@.events.len(),
    {
        self.events.len()
    }

    /// Records an input event at `now` in the window of recent events.
    pub fn record_event(&mut self, now: u64)
        ensures
            final(self)@ == (AppStateView { events: spec_record(old(self)@.events, now), ..old(self)@ }),
    {
        proof {
            use_type_invariant(&*self);
        }
        let mut events = EventWindow::new();
        std::mem::swap(&mut events, &mut self.events);
        events.record(now);
        self.events = events;
    }

    /// Forgets the events that have left the window at `now`.
    pub fn prune_events(&mut self, now: u64)
        ensures
            final(self)@ == (AppStateView { events: spec_prune(old(self)@.events, now), ..old(self)@ }),
    {
        proof {
            use_type_invariant(&*self);
        }
        let mut events = EventWindow::new();
        std::mem::swap(&mut events, &mut self.events);
        events.prune(now);
        self.events = events;
    }

    /// A frame tick at `now`: prunes the window, and answers whether the
    /// energy levels should decay, which they do unless the wall is paused.
    pub fn tick(&mut self, now: u64) -> (decay: bool)
        ensures
            final(self)@ == (AppStateView { events: spec_prune(old(self)@.events, now), ..old(self)@ }),
            decay == !old(self)@.paused,
    {
        self.prune_events(now);
        !self.paused
    }

    /// Records a wave packet of `kind` aimed at `band_index` at `now`, and
    /// hands back the bands it raises.
    fn pulse(&mut self, band_index: usize, kind: EventKind, now: u64) -> (p: WavePacket)
        requires
            old(self)@.event_count < u64::MAX,
        ensures
            final(self)@ == spec_pulse(old(self)@, kind, now),
            packet_matches(p, kind, band_index, final(self)@.band_count, final(self)@.phase, final(self)@.events.len() as int),
    {
        proof {
            use_type_invariant(&*self);
        }
        self.record_event(now);
        proof {
            lemma_record_bounded(old(self)@.events, now);
        }
        let recent = self.events.len();
        self.phase = self.phase.wrapping_add(5 + recent);
        let packet = build_packet(kind, band_index, self.band_count, self.phase, recent);
        self.event_count = self.event_count + 1;
        self.last_event = Some(kind);
        packet
    }

    /// Excites the wall around `band_index` with an event of `kind` at `now`:
    /// records the event, advances the phase and counts the event. The
    /// packet names the bands to raise.
    pub fn inject_at(&mut self, band_index: usize, kind: EventKind, now: u64) -> (p: WavePacket)
        requires
            old(self)@.event_count < u64::MAX,
        ensures
            final(self)@ == spec_pulse(old(self)@, kind, now),
            packet_matches(p, kind, band_index, final(self)@.band_count, final(self)@.phase, final(self)@.events.len() as int),
    {
        self.pulse(band_index, kind, now)
    }

    /// A key pressed anywhere on the system at `now`: excites the band that
    /// `dynamic_key_band` picks at the current phase, counts the key and
    /// labels it `key:` and its code.
    pub fn handle_global_key(&mut self, event: GlobalKeyEvent, now: u64) -> (p: WavePacket)
        requires
            old(self)@.event_count < u64::MAX,
            old(self)@.key_count < u64::MAX,
        ensures
            final(self)@ == spec_global_key(old(self)@, event.code, now),
            packet_matches(
                p,
                EventKind::Key,
                spec_dynamic_key_band(event.code, old(self)@.band_count, old(self)@.phase),
                final(self)@.band_count,
                final(self)@.phase,
                final(self)@.events.len() as int,
            ),
    {
        proof {
            use_type_invariant(&*self);
        }
        let band = dynamic_key_band(event.code, self.band_count, self.phase);
        let packet = self.pulse(band, EventKind::Key, now);
        self.key_count = self.key_count + 1;
        self.last_key_label = String::from_str("key:").concat(decimal_string(event.code).as_str());
        packet
    }

    /// A key pressed in the terminal at `now`. Quitting changes nothing;
    /// a setting key changes its setting and the label and asks the main
    /// loop to ignore system-wide input for a moment; any other key excites
    /// the band that `key_to_band` gives it, as a special-key event unless
    /// it types a character, counts the key and shows its label.
    pub fn handle_key(&mut self, key: KeyEvent, now: u64) -> (r: (AppCommand, KeyEffect))
        requires
            key_action(key) is Press ==> old(self)@.event_count < u64::MAX && old(self)@.key_count
                < u64::MAX,
        ensures
            key_action(key) is Quit ==> r.0 == AppCommand::Quit && r.1 is Nothing && final(self)@ == old(self)@,
            is_control_action(key_action(key)) ==> {
                &&& r.0 == AppCommand::ControlHandled
                &&& final(self)@ == spec_control(old(self)@, key_action(key))
                &&& (key_action(key) is RaiseSensitivity <==> r.1 is RaiseSensitivity)
                &&& (key_action(key) is LowerSensitivity <==> r.1 is LowerSensitivity)
                &&& (r.1 is Nothing || r.1 is RaiseSensitivity || r.1 is LowerSensitivity)
            },
            key_action(key) is Press ==> {
                &&& r.0 == AppCommand::Continue
                &&& final(self)@ == spec_press(old(self)@, key.code, now)
                &&& r.1 matches KeyEffect::Inject(p) && packet_matches(
                    p,
                    press_kind(key.code),
                    spec_key_to_band(key.code, old(self)@.band_count),
                    final(self)@.band_count,
                    final(self)@.phase,
                    final(self)@.events.len() as int,
                )
            },
    {
        proof {
            use_type_invariant(&*self);
        }
        match key.code {
            KeyCode::Char('q') | KeyCode::Esc => {
                return (AppCommand::Quit, KeyEffect::Nothing);
            },
            KeyCode::Char('c') if key.modifiers.contains(KeyModifiers::control()) => {
                return (AppCommand::Quit, KeyEffect::Nothing);
            },
            KeyCode::Char(' ') => {
                self.paused = !self.paused;
                self.last_key_label = String::from_str("space");
                return (AppCommand::ControlHandled, KeyEffect::Nothing);
            },
            KeyCode::Tab => {
                self.mode = self.mode.next();
                self.last_key_label = String::from_str("tab");
                return (AppCommand::ControlHandled, KeyEffect::Nothing);
            },
            KeyCode::Char('1') => {
                self.theme = Theme::Nord;
                self.last_key_label = String::from_str("1");
                return (AppCommand::ControlHandled, KeyEffect::Nothing);
            },
            KeyCode::Char('2') => {
                self.theme = Theme::Mono;
                self.last_key_label = String::from_str("2");
                return (AppCommand::ControlHandled, KeyEffect::Nothing);
            },
            KeyCode::Char('3') => {
                self.theme = Theme::Amber;
                self.last_key_label = String::from_str("3");
                return (AppCommand::ControlHandled, KeyEffect::Nothing);
            },
            KeyCode::Char('+') | KeyCode::Char('=') => {
                self.last_key_label = String::from_str("+");
                return (AppCommand::ControlHandled, KeyEffect::RaiseSensitivity);
            },
            KeyCode::Char('-') | KeyCode::Char('_') => {
                self.last_key_label = String::from_str("-");
                return (AppCommand::ControlHandled, KeyEffect::LowerSensitivity);
            },
            _ => {
                let band = key_to_band(key.code, self.band_count);
                let kind = if is_special_key(key.code) {
                    EventKind::SpecialKey
                } else {
                    EventKind::Key
                };
                let packet = self.pulse(band, kind, now);
                self.key_count = self.key_count + 1;
                self.last_key_label = key_label(key.code);
                (AppCommand::Continue, KeyEffect::Inject(packet))
            },
        }
    }
}

} // verus!
