use inputspectrum::app::{
    classify_key, AppCommand, AppConfig, AppState, EventKind, KeyAction, KeyEffect, Mode, Theme,
    MAX_BARS, MIN_BARS,
};
use inputspectrum::events::MAX_EVENTS;
use inputspectrum::global_input::GlobalKeyEvent;
use inputspectrum::keys::{dynamic_key_band, key_to_band, KeyCode, KeyEvent, KeyModifiers};

const MS: u64 = 1_000_000;

fn key(code: KeyCode) -> KeyEvent {
    KeyEvent::new(code, KeyModifiers::none())
}

#[test]
fn key_mapping_stays_in_range() {
    for band_count in [1, 2, 8, 80, 240] {
        for code in [
            KeyCode::Char('a'),
            KeyCode::Char('Z'),
            KeyCode::Enter,
            KeyCode::Backspace,
            KeyCode::Left,
            KeyCode::F(12),
        ] {
            assert!(key_to_band(code, band_count) < band_count);
        }
    }
}

#[test]
fn global_code_mapping_stays_in_range() {
    for band_count in [1, 2, 8, 80, 240] {
        for code in [0, 1, 30, 272, u16::MAX] {
            assert!(dynamic_key_band(code, band_count, 37) < band_count);
        }
    }
}

#[test]
fn dynamic_mapping_moves_repeated_keys() {
    let first = dynamic_key_band(30, 80, 0);
    let second = dynamic_key_band(30, 80, 7);
    assert_ne!(first, second);
}

#[test]
fn input_rate_prunes_old_events() {
    let mut app = AppState::new(AppConfig::default());
    let now = 10_000 * MS;
    app.record_event(now - 1_500 * MS);
    app.record_event(now);
    app.prune_events(now);
    assert_eq!(app.recent_event_count(), 1);
}

#[test]
fn control_keys_change_settings_without_injecting_energy() {
    let mut app = AppState::new(AppConfig::default());

    let (command, effect) = app.handle_key(KeyEvent::new(KeyCode::Tab, KeyModifiers::none()), 0);
    assert_eq!(command, AppCommand::ControlHandled);
    assert_eq!(app.mode(), Mode::Wave);
    assert_eq!(app.event_count(), 0);
    assert_eq!(app.key_count(), 0);
    // No band receives energy: the key hands back no wave packet.
    assert!(matches!(effect, KeyEffect::Nothing));
}

#[test]
fn key_to_band_zero_bands_is_zero() {
    assert_eq!(key_to_band(KeyCode::Char('a'), 0), 0);
    assert_eq!(dynamic_key_band(30, 0, 5), 0);
}

#[test]
fn key_to_band_same_key_same_band() {
    assert_eq!(key_to_band(KeyCode::Enter, 80), key_to_band(KeyCode::Enter, 80));
    assert_eq!(key_to_band(KeyCode::F(3), 1), 0);
}

#[test]
fn new_state_clamps_bands_and_starts_quiet() {
    let app = AppState::new(AppConfig { bars: 3, fps: 30, theme: Theme::Amber, mode: Mode::Peaks });
    assert_eq!(app.band_count(), MIN_BARS);
    assert_eq!(app.theme(), Theme::Amber);
    assert_eq!(app.mode(), Mode::Peaks);
    assert!(!app.paused());
    assert_eq!(app.last_key_label(), "-");
    assert_eq!(app.last_event(), None);
    let big = AppState::new(AppConfig { bars: 1000, ..AppConfig::default() });
    assert_eq!(big.band_count(), MAX_BARS);
    let mid = AppState::new(AppConfig::default());
    assert_eq!(mid.band_count(), 120);
}

#[test]
fn mode_cycles_through_three() {
    assert_eq!(Mode::Bars.next(), Mode::Wave);
    assert_eq!(Mode::Wave.next(), Mode::Peaks);
    assert_eq!(Mode::Peaks.next(), Mode::Bars);
    for m in [Mode::Bars, Mode::Wave, Mode::Peaks] {
        assert_eq!(m.next().next().next(), m);
    }
}

#[test]
fn default_config_values() {
    let c = AppConfig::default();
    assert_eq!(c.bars, 120);
    assert_eq!(c.fps, 30);
    assert_eq!(c.theme, Theme::Nord);
    assert_eq!(c.mode, Mode::Bars);
}

#[test]
fn quit_keys_quit_and_change_nothing() {
    let mut app = AppState::new(AppConfig::default());
    for k in [
        key(KeyCode::Char('q')),
        key(KeyCode::Esc),
        KeyEvent::new(KeyCode::Char('c'), KeyModifiers::control()),
    ] {
        let (command, effect) = app.handle_key(k, 0);
        assert_eq!(command, AppCommand::Quit);
        assert!(matches!(effect, KeyEffect::Nothing));
    }
    assert_eq!(app.last_key_label(), "-");
    assert_eq!(app.event_count(), 0);
}

#[test]
fn plain_c_is_an_ordinary_key() {
    let mut app = AppState::new(AppConfig::default());
    let (command, effect) = app.handle_key(key(KeyCode::Char('c')), 5 * MS);
    assert_eq!(command, AppCommand::Continue);
    assert!(matches!(effect, KeyEffect::Inject(_)));
    assert_eq!(app.key_count(), 1);
    assert_eq!(app.last_key_label(), "c");
}

#[test]
fn space_twice_restores_pause() {
    let mut app = AppState::new(AppConfig::default());
    let (command, _) = app.handle_key(key(KeyCode::Char(' ')), 0);
    assert_eq!(command, AppCommand::ControlHandled);
    assert!(app.paused());
    assert_eq!(app.last_key_label(), "space");
    app.handle_key(key(KeyCode::Char(' ')), 0);
    assert!(!app.paused());
}

#[test]
fn theme_keys_select_themes() {
    let mut app = AppState::new(AppConfig::default());
    app.handle_key(key(KeyCode::Char('3')), 0);
    assert_eq!(app.theme(), Theme::Amber);
    assert_eq!(app.last_key_label(), "3");
    app.handle_key(key(KeyCode::Char('2')), 0);
    assert_eq!(app.theme(), Theme::Mono);
    app.handle_key(key(KeyCode::Char('1')), 0);
    assert_eq!(app.theme(), Theme::Nord);
    assert_eq!(app.last_key_label(), "1");
}

#[test]
fn sensitivity_keys_ask_for_changes() {
    let mut app = AppState::new(AppConfig::default());
    for (c, label) in [('+', "+"), ('=', "+")] {
        let (command, effect) = app.handle_key(key(KeyCode::Char(c)), 0);
        assert_eq!(command, AppCommand::ControlHandled);
        assert!(matches!(effect, KeyEffect::RaiseSensitivity));
        assert_eq!(app.last_key_label(), label);
    }
    for c in ['-', '_'] {
        let (_, effect) = app.handle_key(key(KeyCode::Char(c)), 0);
        assert!(matches!(effect, KeyEffect::LowerSensitivity));
        assert_eq!(app.last_key_label(), "-");
    }
    assert_eq!(app.event_count(), 0);
}

#[test]
fn ordinary_key_excites_its_band() {
    let mut app = AppState::new(AppConfig { bars: 16, ..AppConfig::default() });
    let (command, effect) = app.handle_key(key(KeyCode::Enter), 7 * MS);
    assert_eq!(command, AppCommand::Continue);
    let packet = match effect {
        KeyEffect::Inject(p) => p,
        _ => panic!("expected a wave packet"),
    };
    assert_eq!(packet.kind, EventKind::SpecialKey);
    assert_eq!(packet.targets.len(), 15);
    assert_eq!(packet.recent_events, 1);
    assert!(packet.targets.iter().all(|t| t.index < 16 && t.shimmer < 7));
    assert!(packet.echo < 16);
    assert_eq!(app.event_count(), 1);
    assert_eq!(app.key_count(), 1);
    assert_eq!(app.last_event(), Some(EventKind::SpecialKey));
    assert_eq!(app.last_key_label(), "enter");
}

#[test]
fn wave_packet_shape_at_known_phase() {
    // Fresh state: one event recorded gives phase 0 + 5 + 1 = 6, drift 6 - 5 = 1.
    let mut app = AppState::new(AppConfig { bars: 16, ..AppConfig::default() });
    let packet = app.inject_at(4, EventKind::Key, 0);
    let indices: Vec<usize> = packet.targets.iter().map(|t| t.index).collect();
    let expected: Vec<usize> = (-7i64..=7).map(|o| (4 + o + 1).rem_euclid(16) as usize).collect();
    assert_eq!(indices, expected);
    let distances: Vec<usize> = packet.targets.iter().map(|t| t.distance).collect();
    assert_eq!(distances, vec![7, 6, 5, 4, 3, 2, 1, 0, 1, 2, 3, 4, 5, 6, 7]);
    for t in &packet.targets {
        assert_eq!(t.shimmer, (6 + t.index) % 7);
    }
    // echo: centre 4 + drift 1 * 3 + 16 / 3 = 12.
    assert_eq!(packet.echo, 12);
    assert_eq!(app.event_count(), 1);
    assert_eq!(app.last_event(), Some(EventKind::Key));
}

#[test]
fn wave_packet_clamps_centre_to_last_band() {
    let mut app = AppState::new(AppConfig { bars: 8, ..AppConfig::default() });
    let packet = app.inject_at(1_000, EventKind::SpecialKey, 0);
    // centre 7, drift 1: the middle target is (7 + 1) mod 8 = 0.
    assert_eq!(packet.targets[7].index, 0);
    assert_eq!(packet.targets[7].distance, 0);
}

#[test]
fn global_key_counts_and_labels() {
    let mut app = AppState::new(AppConfig { bars: 80, ..AppConfig::default() });
    let expected_band = dynamic_key_band(30, 80, 0);
    let packet = app.handle_global_key(GlobalKeyEvent { code: 30 }, 0);
    assert_eq!(packet.kind, EventKind::Key);
    // phase after one event is 6: drift 1.
    assert_eq!(packet.targets[7].index, (expected_band + 1) % 80);
    assert_eq!(app.key_count(), 1);
    assert_eq!(app.event_count(), 1);
    assert_eq!(app.last_key_label(), "key:30");
}

#[test]
fn tick_prunes_and_reports_pause() {
    let mut app = AppState::new(AppConfig::default());
    app.record_event(0);
    assert!(app.tick(500 * MS));
    assert_eq!(app.recent_event_count(), 1);
    app.handle_key(key(KeyCode::Char(' ')), 0);
    assert!(!app.tick(2_000 * MS));
    assert_eq!(app.recent_event_count(), 0);
}

#[test]
fn event_window_is_capped() {
    let mut app = AppState::new(AppConfig::default());
    for i in 0..(MAX_EVENTS as u64 + 40) {
        app.record_event(i);
    }
    assert_eq!(app.recent_event_count(), MAX_EVENTS);
}

#[test]
fn event_exactly_a_window_old_stays() {
    let mut app = AppState::new(AppConfig::default());
    app.record_event(0);
    app.prune_events(1_000 * MS);
    assert_eq!(app.recent_event_count(), 1);
    app.prune_events(1_000 * MS + 1);
    assert_eq!(app.recent_event_count(), 0);
}

#[test]
fn later_event_time_is_not_expired() {
    let mut app = AppState::new(AppConfig::default());
    app.record_event(5_000 * MS);
    app.prune_events(0);
    assert_eq!(app.recent_event_count(), 1);
}

#[test]
fn classify_matches_bindings() {
    assert_eq!(classify_key(key(KeyCode::Char('q'))), KeyAction::Quit);
    assert_eq!(classify_key(key(KeyCode::Tab)), KeyAction::NextMode);
    assert_eq!(classify_key(key(KeyCode::Char('2'))), KeyAction::SelectTheme(Theme::Mono));
    assert_eq!(classify_key(key(KeyCode::Char('x'))), KeyAction::Press);
    assert_eq!(
        classify_key(KeyEvent::new(KeyCode::Char('c'), KeyModifiers::from_bits(0b11))),
        KeyAction::Quit
    );
}
