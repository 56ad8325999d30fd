use inputspectrum::app::Theme;
use inputspectrum::frame_loop::{frame_rate, LoopControl, CONTROL_GLOBAL_SUPPRESS_NANOS};
use inputspectrum::app::AppCommand;
use inputspectrum::keys::{key_label, stable_hash, KeyCode};
use inputspectrum::text::{equals_ignore_ascii_case, starts_with, str_equals};
use inputspectrum::ui::{
    bucket_glyph, column_band_range, dither_tenths, peak_glyph, theme_background, theme_border,
    theme_dim, theme_peak, wave_glyph, Color,
};

#[test]
fn theme_colours() {
    assert_eq!(theme_background(Theme::Nord), Color::Rgb(46, 52, 64));
    assert_eq!(theme_background(Theme::Mono), Color::Black);
    assert_eq!(theme_background(Theme::Amber), Color::Rgb(32, 24, 16));
    assert_eq!(theme_border(Theme::Mono), Color::Rgb(67, 76, 94));
    assert_eq!(theme_peak(Theme::Nord), Color::Rgb(180, 142, 173));
    assert_eq!(theme_dim(Theme::Amber), Color::Rgb(111, 76, 47));
}

#[test]
fn glyph_tables() {
    assert_eq!(peak_glyph(0), "▀");
    assert_eq!(peak_glyph(5), "▔");
    assert_eq!(peak_glyph(6), "▝");
    assert_eq!(peak_glyph(7), "▘");
    assert_eq!(bucket_glyph(0), "·");
    assert_eq!(bucket_glyph(3), "▄");
    assert_eq!(bucket_glyph(7), "█");
    assert_eq!(bucket_glyph(99), "█");
    assert_eq!(wave_glyph(1, 1, true), "╲");
    assert_eq!(wave_glyph(1, 2, false), "˙");
    assert_eq!(dither_tenths(1, 1), (17 + 29) % 11);
}

#[test]
fn columns_cover_every_band() {
    for (width, bands) in [(10usize, 120usize), (120, 120), (200, 8), (7, 240), (1, 8)] {
        let mut covered = vec![false; bands];
        let mut previous_start = 0;
        for column in 0..width {
            let (start, end) = column_band_range(column, width, bands);
            assert!(start < end && end <= bands);
            assert!(start >= previous_start);
            previous_start = start;
            for b in start..end {
                covered[b] = true;
            }
        }
        assert!(covered.iter().all(|c| *c));
    }
    assert_eq!(column_band_range(0, 0, 8), (0, 8));
    assert_eq!(column_band_range(3, 10, 120), (36, 48));
}

#[test]
fn frame_rate_is_clamped() {
    assert_eq!(frame_rate(5), 10);
    assert_eq!(frame_rate(60), 60);
    assert_eq!(frame_rate(500), 120);
}

#[test]
fn control_keys_suppress_global_input_briefly() {
    let mut control = LoopControl::new();
    assert!(control.accepts_global_input(0));
    assert!(control.after_command(AppCommand::ControlHandled, 1_000));
    assert!(!control.accepts_global_input(1_000));
    assert!(!control.accepts_global_input(1_000 + CONTROL_GLOBAL_SUPPRESS_NANOS - 1));
    assert!(control.accepts_global_input(1_000 + CONTROL_GLOBAL_SUPPRESS_NANOS));
    assert!(control.after_command(AppCommand::Continue, 5));
    assert!(!control.after_command(AppCommand::Quit, 5));
}

#[test]
fn text_helpers() {
    assert!(str_equals("abc", "abc"));
    assert!(!str_equals("abc", "abd"));
    assert!(starts_with("--bars=9", "--bars="));
    assert!(!starts_with("--bar", "--bars="));
    assert!(equals_ignore_ascii_case("EvDeV", "evdev"));
    assert!(!equals_ignore_ascii_case("évdev", "evdev"));
}

#[test]
fn key_labels() {
    assert_eq!(key_label(KeyCode::F(12)), "f12");
    assert_eq!(key_label(KeyCode::Char('Z')), "Z");
    assert_eq!(key_label(KeyCode::PageDown), "pagedown");
    assert_eq!(key_label(KeyCode::Other), "key");
    assert_eq!(key_label(KeyCode::BackTab), "backtab");
    assert_eq!(key_label(KeyCode::F(0)), "f0");
    assert_eq!(key_label(KeyCode::F(255)), "f255");
    assert_eq!(key_label(KeyCode::Char('é')), "é");
}

#[test]
fn stable_hash_known_values() {
    let expected = |v: usize| v.wrapping_mul(2_654_435_761).rotate_left(7).wrapping_add(0x9e37_79b9);
    for v in [0usize, 1, 13, 97, usize::MAX] {
        assert_eq!(stable_hash(v), expected(v));
    }
    assert_eq!(stable_hash(0), 0x9e37_79b9);
}
