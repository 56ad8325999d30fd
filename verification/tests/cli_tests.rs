use inputspectrum::app::{Mode, Theme};
use inputspectrum::cli::{parse_args, parse_mode, parse_range, parse_theme};

fn args(list: &[&str]) -> Vec<String> {
    list.iter().map(|s| s.to_string()).collect()
}

#[test]
fn parses_defaults() {
    let config = parse_args(Vec::<String>::new()).unwrap();
    assert_eq!(config.bars, 120);
    assert_eq!(config.fps, 30);
    assert_eq!(config.theme, Theme::Nord);
    assert_eq!(config.mode, Mode::Bars);
}

#[test]
fn parses_long_options() {
    let config = parse_args(vec![
        "--fps=60".to_string(),
        "--bars".to_string(),
        "96".to_string(),
        "--theme".to_string(),
        "amber".to_string(),
        "--mode=wave".to_string(),
    ])
    .unwrap();

    assert_eq!(config.fps, 60);
    assert_eq!(config.bars, 96);
    assert_eq!(config.theme, Theme::Amber);
    assert_eq!(config.mode, Mode::Wave);
}

#[test]
fn rejects_out_of_range_values() {
    assert!(parse_args(vec!["--fps=5".to_string()]).is_err());
    assert!(parse_args(vec!["--bars=400".to_string()]).is_err());
}

#[test]
fn rejects_unknown_theme_aliases() {
    assert!(parse_args(vec!["--theme=cyber".to_string()]).is_err());
}

#[test]
fn rejects_unknown_mode_aliases() {
    assert!(parse_args(vec!["--mode=cyber".to_string()]).is_err());
}

#[test]
fn rejects_unknown_flags() {
    assert!(parse_args(vec!["--backend=evdev".to_string()]).is_err());
}

#[test]
fn error_messages_are_exact() {
    assert_eq!(parse_args(args(&["--fps=5"])).unwrap_err(), "--fps must be between 10 and 120");
    assert_eq!(parse_args(args(&["--bars=400"])).unwrap_err(), "--bars must be between 8 and 240");
    assert_eq!(parse_args(args(&["--bars", "x"])).unwrap_err(), "--bars must be a number");
    assert_eq!(parse_args(args(&["--fps"])).unwrap_err(), "--fps requires a value");
    assert_eq!(parse_args(args(&["--bars"])).unwrap_err(), "--bars requires a value");
    assert_eq!(parse_args(args(&["--theme"])).unwrap_err(), "--theme requires a value");
    assert_eq!(parse_args(args(&["--mode"])).unwrap_err(), "--mode requires a value");
    assert_eq!(
        parse_args(args(&["--theme=cyber"])).unwrap_err(),
        "--theme must be one of: nord, mono, amber"
    );
    assert_eq!(
        parse_args(args(&["--mode", "cyber"])).unwrap_err(),
        "--mode must be one of: bars, wave, peaks"
    );
    assert_eq!(
        parse_args(args(&["--backend=evdev"])).unwrap_err(),
        "unknown argument: --backend=evdev"
    );
}

#[test]
fn help_is_answered_first() {
    assert_eq!(parse_args(args(&["--help"])).unwrap_err(), "__help__");
    assert_eq!(parse_args(args(&["-h", "--bogus"])).unwrap_err(), "__help__");
    assert_eq!(parse_args(args(&["--bogus", "-h"])).unwrap_err(), "unknown argument: --bogus");
}

#[test]
fn later_options_override_earlier() {
    let config = parse_args(args(&["--fps", "20", "--fps=90", "--mode", "peaks", "--theme=mono"])).unwrap();
    assert_eq!(config.fps, 90);
    assert_eq!(config.mode, Mode::Peaks);
    assert_eq!(config.theme, Theme::Mono);
    assert_eq!(config.bars, 120);
}

#[test]
fn range_edges_and_number_forms() {
    assert_eq!(parse_range("10", "--fps", 10, 120), Ok(10));
    assert_eq!(parse_range("120", "--fps", 10, 120), Ok(120));
    assert_eq!(parse_range("+42", "--fps", 10, 120), Ok(42));
    assert_eq!(parse_range("0042", "--fps", 10, 120), Ok(42));
    assert!(parse_range("121", "--fps", 10, 120).is_err());
    assert!(parse_range("-20", "--fps", 10, 120).is_err());
    assert!(parse_range("+", "--fps", 10, 120).is_err());
    assert!(parse_range("", "--fps", 10, 120).is_err());
    assert!(parse_range(" 20", "--fps", 10, 120).is_err());
    assert_eq!(parse_range("70000", "--bars", 8, 240).unwrap_err(), "--bars must be a number");
    assert_eq!(parse_range("65535", "--bars", 8, 240).unwrap_err(), "--bars must be between 8 and 240");
}

#[test]
fn theme_and_mode_names() {
    assert_eq!(parse_theme("nord"), Ok(Theme::Nord));
    assert_eq!(parse_theme("mono"), Ok(Theme::Mono));
    assert!(parse_theme("Nord").is_err());
    assert_eq!(parse_mode("bars"), Ok(Mode::Bars));
    assert_eq!(parse_mode("peaks"), Ok(Mode::Peaks));
    assert!(parse_mode("wav").is_err());
}

#[test]
fn accepted_settings_stay_in_range() {
    for list in [
        vec!["--bars=8"],
        vec!["--bars", "240", "--fps", "10"],
        vec!["--fps=120", "--bars=+77"],
        vec!["--bars=7"],
        vec!["--fps", "121"],
    ] {
        if let Ok(config) = parse_args(args(&list)) {
            assert!((8..=240).contains(&config.bars));
            assert!((10..=120).contains(&config.fps));
        }
    }
    assert_eq!(parse_args(args(&["--bars=+77"])).unwrap().bars, 77);
}
