//! The command line: `--bars`, `--fps`, `--theme` and `--mode`, each either
//! followed by its value or joined to it by `=`, and `--help` or `-h`.
use vstd::prelude::*;
use crate::app::{AppConfig, Mode, Theme};
use crate::text::{
    decimal_chars, decimal_string, digits_value, has_prefix, is_ascii_digit, lemma_decimal_digits,
    starts_with, str_equals,
};

verus! {

/// What `--help` or `-h` answers in place of an error message: the caller
/// prints the usage and stops.
pub open spec fn help_request() -> Seq<char> {
    "__help__"@
}

/// The number that std reads from `s` as a `u16`: an optional `+`, then one
/// or more ASCII digits whose value fits in 16 bits. Anything else (a sign
/// alone, a `-`, spaces, other characters, an overflow) is no number.
pub open spec fn spec_parse_u16(s: Seq<char>) -> Option<u16> {
    let digits = if s.len() > 0 && s[0] == '+' {
        s.drop_first()
    } else {
        s
    };
    if digits.len() > 0 && (forall|i: int| 0 <= i < digits.len() ==> is_ascii_digit(#[trigger] digits[i]))
        && digits_value(digits) <= u16::MAX {
        Some(digits_value(digits) as u16)
    } else {
        None
    }
}

/// Reads a `u16` with std's `str::parse::<u16>`, which accepts an optional
/// `+` followed by decimal digits and fails on an empty string, on any other
/// character and on a value above 65535; the contract states exactly that.
#[verifier::external_body]
fn parse_u16(s: &str) -> (r: Option<u16>)
    ensures
        r == spec_parse_u16(s@),
{
    s.parse::<u16>().ok()
}

/// A result whose error is a `String`, seen with the error's characters.
pub open spec fn result_view<T>(r: Result<T, String>) -> Result<T, Seq<char>> {
    match r {
        Ok(v) => Ok(v),
        Err(e) => Err(e@),
    }
}

/// The value of option `flag` read from `value`: a number from `min` to
/// `max`, else the message that says what is wrong.
pub open spec fn spec_parse_range(value: Seq<char>, flag: Seq<char>, min: u16, max: u16) -> Result<u16, Seq<char>> {
    match spec_parse_u16(value) {
        None => Err(flag + " must be a number"@),
        Some(v) => {
            if min <= v && v <= max {
                Ok(v)
            } else {
                Err(flag + " must be between "@ + decimal_chars(min as nat) + " and "@ + decimal_chars(
                    max as nat,
                ))
            }
        },
    }
}

/// Reads the number given to option `flag`, which must lie from `min` to
/// `max`.
pub fn parse_range(value: &str, flag: &str, min: u16, max: u16) -> (r: Result<u16, String>)
    ensures
        result_view(r) == spec_parse_range(value@, flag@, min, max),
{
    match parse_u16(value) {
        None => Err(String::from_str(flag).concat(" must be a number")),
        Some(parsed) => {
            if min <= parsed && parsed <= max {
                Ok(parsed)
            } else {
                Err(
                    String::from_str(flag).concat(" must be between ").concat(
                        decimal_string(min).as_str(),
                    ).concat(" and ").concat(decimal_string(max).as_str()),
                )
            }
        },
    }
}

/// The theme that `value` names: `nord`, `mono` or `amber`, exactly.
pub open spec fn spec_parse_theme(value: Seq<char>) -> Result<Theme, Seq<char>> {
    if value == "nord"@ {
        Ok(Theme::Nord)
    } else if value == "mono"@ {
        Ok(Theme::Mono)
    } else if value == "amber"@ {
        Ok(Theme::Amber)
    } else {
        Err("--theme must be one of: nord, mono, amber"@)
    }
}

/// Reads a theme name.
pub fn parse_theme(value: &str) -> (r: Result<Theme, String>)
    ensures
        result_view(r) == spec_parse_theme(value@),
{
    if str_equals(value, "nord") {
        Ok(Theme::Nord)
    } else if str_equals(value, "mono") {
        Ok(Theme::Mono)
    } else if str_equals(value, "amber") {
        Ok(Theme::Amber)
    } else {
        Err(String::from_str("--theme must be one of: nord, mono, amber"))
    }
}

/// The mode that `value` names: `bars`, `wave` or `peaks`, exactly.
pub open spec fn spec_parse_mode(value: Seq<char>) -> Result<Mode, Seq<char>> {
    if value == "bars"@ {
        Ok(Mode::Bars)
    } else if value == "wave"@ {
        Ok(Mode::Wave)
    } else if value == "peaks"@ {
        Ok(Mode::Peaks)
    } else {
        Err("--mode must be one of: bars, wave, peaks"@)
    }
}

/// Reads a mode name.
pub fn parse_mode(value: &str) -> (r: Result<Mode, String>)
    ensures
        result_view(r) == spec_parse_mode(value@),
{
    if str_equals(value, "bars") {
        Ok(Mode::Bars)
    } else if str_equals(value, "wave") {
        Ok(Mode::Wave)
    } else if str_equals(value, "peaks") {
        Ok(Mode::Peaks)
    } else {
        Err(String::from_str("--mode must be one of: bars, wave, peaks"))
    }
}

/// The arguments as character sequences.
pub open spec fn args_view(args: Seq<String>) -> Seq<Seq<char>> {
    args.map_values(|a: String| a@)
}

/// The rest of `s` after its first `n` characters.
pub open spec fn after(s: Seq<char>, n: nat) -> Seq<char> {
    s.subrange(n as int, s.len() as int)
}

/// Reads the arguments from the `i`-th on into `config`, left to right; a
/// later option overrides an earlier one and the first error ends the
/// reading.
pub open spec fn spec_parse_from(args: Seq<Seq<char>>, i: int, config: AppConfig) -> Result<AppConfig, Seq<char>>
    decreases args.len() - i,
{
    if i < 0 || i >= args.len() {
        Ok(config)
    } else {
        let arg = args[i];
        if arg == "--help"@ || arg == "-h"@ {
            Err(help_request())
        } else if arg == "--bars"@ {
            if i + 1 >= args.len() {
                Err("--bars requires a value"@)
            } else {
                match spec_parse_range(args[i + 1], "--bars"@, 8, 240) {
                    Ok(v) => spec_parse_from(args, i + 2, AppConfig { bars: v as usize, ..config }),
                    Err(e) => Err(e),
                }
            }
        } else if arg == "--fps"@ {
            if i + 1 >= args.len() {
                Err("--fps requires a value"@)
            } else {
                match spec_parse_range(args[i + 1], "--fps"@, 10, 120) {
                    Ok(v) => spec_parse_from(args, i + 2, AppConfig { fps: v, ..config }),
                    Err(e) => Err(e),
                }
            }
        } else if arg == "--theme"@ {
            if i + 1 >= args.len() {
                Err("--theme requires a value"@)
            } else {
                match spec_parse_theme(args[i + 1]) {
                    Ok(t) => spec_parse_from(args, i + 2, AppConfig { theme: t, ..config }),
                    Err(e) => Err(e),
                }
            }
        } else if arg == "--mode"@ {
            if i + 1 >= args.len() {
                Err("--mode requires a value"@)
            } else {
                match spec_parse_mode(args[i + 1]) {
                    Ok(m) => spec_parse_from(args, i + 2, AppConfig { mode: m, ..config }),
                    Err(e) => Err(e),
                }
            }
        } else if has_prefix(arg, "--bars="@) {
            match spec_parse_range(after(arg, "--bars="@.len()), "--bars"@, 8, 240) {
                Ok(v) => spec_parse_from(args, i + 1, AppConfig { bars: v as usize, ..config }),
                Err(e) => Err(e),
            }
        } else if has_prefix(arg, "--fps="@) {
            match spec_parse_range(after(arg, "--fps="@.len()), "--fps"@, 10, 120) {
                Ok(v) => spec_parse_from(args, i + 1, AppConfig { fps: v, ..config }),
                Err(e) => Err(e),
            }
        } else if has_prefix(arg, "--theme="@) {
            match spec_parse_theme(after(arg, "--theme="@.len())) {
                Ok(t) => spec_parse_from(args, i + 1, AppConfig { theme: t, ..config }),
                Err(e) => Err(e),
            }
        } else if has_prefix(arg, "--mode="@) {
            match spec_parse_mode(after(arg, "--mode="@.len())) {
                Ok(m) => spec_parse_from(args, i + 1, AppConfig { mode: m, ..config }),
                Err(e) => Err(e),
            }
        } else {
            Err("unknown argument: "@ + arg)
        }
    }
}

/// The settings that the arguments ask for, starting from the defaults.
pub open spec fn spec_parse_args(args: Seq<Seq<char>>) -> Result<AppConfig, Seq<char>> {
    spec_parse_from(args, 0, AppConfig::spec_default())
}

/// The number of bands and the frame rate lie in the ranges the options
/// accept.
pub open spec fn settings_in_range(c: AppConfig) -> bool {
    8 <= c.bars <= 240 && 10 <= c.fps <= 120
}

/// With no arguments the settings are the defaults.
pub proof fn lemma_no_args_defaults()
    ensures
        spec_parse_args(Seq::<Seq<char>>::empty()) == Ok::<AppConfig, Seq<char>>(AppConfig::spec_default()),
{
}

/// Reading from settings in range gives settings in range.
proof fn lemma_parse_from_in_range(args: Seq<Seq<char>>, i: int, config: AppConfig)
    requires
        settings_in_range(config),
    ensures
        spec_parse_from(args, i, config) matches Ok(c) ==> settings_in_range(c),
    decreases args.len() - i,
{
    if 0 <= i < args.len() {
        let arg = args[i];
        if i + 1 < args.len() {
            lemma_parse_from_in_range(args, i + 2, config);
            if let Ok(v) = spec_parse_range(args[i + 1], "--bars"@, 8, 240) {
                lemma_parse_from_in_range(args, i + 2, AppConfig { bars: v as usize, ..config });
            }
            if let Ok(v) = spec_parse_range(args[i + 1], "--fps"@, 10, 120) {
                lemma_parse_from_in_range(args, i + 2, AppConfig { fps: v, ..config });
            }
            if let Ok(t) = spec_parse_theme(args[i + 1]) {
                lemma_parse_from_in_range(args, i + 2, AppConfig { theme: t, ..config });
            }
            if let Ok(m) = spec_parse_mode(args[i + 1]) {
                lemma_parse_from_in_range(args, i + 2, AppConfig { mode: m, ..config });
            }
        }
        if let Ok(v) = spec_parse_range(after(arg, "--bars="@.len()), "--bars"@, 8, 240) {
            lemma_parse_from_in_range(args, i + 1, AppConfig { bars: v as usize, ..config });
        }
        if let Ok(v) = spec_parse_range(after(arg, "--fps="@.len()), "--fps"@, 10, 120) {
            lemma_parse_from_in_range(args, i + 1, AppConfig { fps: v, ..config });
        }
        if let Ok(t) = spec_parse_theme(after(arg, "--theme="@.len())) {
            lemma_parse_from_in_range(args, i + 1, AppConfig { theme: t, ..config });
        }
        if let Ok(m) = spec_parse_mode(after(arg, "--mode="@.len())) {
            lemma_parse_from_in_range(args, i + 1, AppConfig { mode: m, ..config });
        }
    }
}

/// Whatever the arguments, settings that are read are in range: from 8 to
/// 240 bands and from 10 to 120 frames a second.
pub proof fn lemma_parsed_settings_in_range(args: Seq<Seq<char>>)
    ensures
        spec_parse_args(args) matches Ok(c) ==> settings_in_range(c),
{
    lemma_parse_from_in_range(args, 0, AppConfig::spec_default());
}

/// A number up to 65535 written in decimal reads back as itself.
pub proof fn lemma_parse_u16_decimal(n: u16)
    ensures
        spec_parse_u16(decimal_chars(n as nat)) == Some(n),
{
    let d = decimal_chars(n as nat);
    lemma_decimal_digits(n as nat);
    assert(is_ascii_digit(d[0]));
    assert(d[0] != '+');
}

/// A number written in decimal is accepted by an option exactly when it
/// lies in the option's range; otherwise the message gives the range.
pub proof fn lemma_parse_range_decimal(v: u16, flag: Seq<char>, min: u16, max: u16)
    ensures
        spec_parse_range(decimal_chars(v as nat), flag, min, max) == (if min <= v && v <= max {
            Ok::<u16, Seq<char>>(v)
        } else {
            Err(flag + " must be between "@ + decimal_chars(min as nat) + " and "@ + decimal_chars(max as nat))
        }),
{
    lemma_parse_u16_decimal(v);
}

/// Reading from index `p.len() + j` of `p + s` is reading from index `j` of
/// `s`: what comes before does not matter.
proof fn lemma_parse_shift(p: Seq<Seq<char>>, s: Seq<Seq<char>>, j: int, c: AppConfig)
    requires
        0 <= j,
    ensures
        spec_parse_from(p + s, p.len() + j, c) == spec_parse_from(s, j, c),
    decreases s.len() - j,
{
    let a = p + s;
    if j < s.len() {
        assert(a[p.len() + j] == s[j]);
        if j + 1 < s.len() {
            assert(a[p.len() + j + 1] == s[j + 1]);
        }
        lemma_parse_shift(p, s, j + 1, c);
        if j + 1 < s.len() {
            let v = s[j + 1];
            if let Ok(x) = spec_parse_range(v, "--bars"@, 8, 240) {
                lemma_parse_shift(p, s, j + 2, AppConfig { bars: x as usize, ..c });
            }
            if let Ok(x) = spec_parse_range(v, "--fps"@, 10, 120) {
                lemma_parse_shift(p, s, j + 2, AppConfig { fps: x, ..c });
            }
            if let Ok(t) = spec_parse_theme(v) {
                lemma_parse_shift(p, s, j + 2, AppConfig { theme: t, ..c });
            }
            if let Ok(m) = spec_parse_mode(v) {
                lemma_parse_shift(p, s, j + 2, AppConfig { mode: m, ..c });
            }
        }
        let arg = s[j];
        if let Ok(x) = spec_parse_range(after(arg, "--bars="@.len()), "--bars"@, 8, 240) {
            lemma_parse_shift(p, s, j + 1, AppConfig { bars: x as usize, ..c });
        }
        if let Ok(x) = spec_parse_range(after(arg, "--fps="@.len()), "--fps"@, 10, 120) {
            lemma_parse_shift(p, s, j + 1, AppConfig { fps: x, ..c });
        }
        if let Ok(t) = spec_parse_theme(after(arg, "--theme="@.len())) {
            lemma_parse_shift(p, s, j + 1, AppConfig { theme: t, ..c });
        }
        if let Ok(m) = spec_parse_mode(after(arg, "--mode="@.len())) {
            lemma_parse_shift(p, s, j + 1, AppConfig { mode: m, ..c });
        }
    }
}

/// If the arguments `p` from index `i` on read into `c2`, then `p` followed by
/// more arguments reads the same way up to the end of `p`, and goes on from
/// `c2`.
proof fn lemma_parse_prefix(p: Seq<Seq<char>>, s: Seq<Seq<char>>, i: int, c: AppConfig, c2: AppConfig)
    requires
        0 <= i <= p.len(),
        spec_parse_from(p, i, c) == Ok::<AppConfig, Seq<char>>(c2),
    ensures
        spec_parse_from(p + s, i, c) == spec_parse_from(p + s, p.len() as int, c2),
    decreases p.len() - i,
{
    let a = p + s;
    if i < p.len() {
        assert(a[i] == p[i]);
        if i + 1 < p.len() {
            assert(a[i + 1] == p[i + 1]);
            let v = p[i + 1];
            if let Ok(x) = spec_parse_range(v, "--bars"@, 8, 240) {
                if spec_parse_from(p, i + 2, AppConfig { bars: x as usize, ..c }) == Ok::<AppConfig, Seq<char>>(c2) {
                    lemma_parse_prefix(p, s, i + 2, AppConfig { bars: x as usize, ..c }, c2);
                }
            }
            if let Ok(x) = spec_parse_range(v, "--fps"@, 10, 120) {
                if spec_parse_from(p, i + 2, AppConfig { fps: x, ..c }) == Ok::<AppConfig, Seq<char>>(c2) {
                    lemma_parse_prefix(p, s, i + 2, AppConfig { fps: x, ..c }, c2);
                }
            }
            if let Ok(t) = spec_parse_theme(v) {
                if spec_parse_from(p, i + 2, AppConfig { theme: t, ..c }) == Ok::<AppConfig, Seq<char>>(c2) {
                    lemma_parse_prefix(p, s, i + 2, AppConfig { theme: t, ..c }, c2);
                }
            }
            if let Ok(m) = spec_parse_mode(v) {
                if spec_parse_from(p, i + 2, AppConfig { mode: m, ..c }) == Ok::<AppConfig, Seq<char>>(c2) {
                    lemma_parse_prefix(p, s, i + 2, AppConfig { mode: m, ..c }, c2);
                }
            }
        }
        let arg = p[i];
        if let Ok(x) = spec_parse_range(after(arg, "--bars="@.len()), "--bars"@, 8, 240) {
            if spec_parse_from(p, i + 1, AppConfig { bars: x as usize, ..c }) == Ok::<AppConfig, Seq<char>>(c2) {
                lemma_parse_prefix(p, s, i + 1, AppConfig { bars: x as usize, ..c }, c2);
            }
        }
        if let Ok(x) = spec_parse_range(after(arg, "--fps="@.len()), "--fps"@, 10, 120) {
            if spec_parse_from(p, i + 1, AppConfig { fps: x, ..c }) == Ok::<AppConfig, Seq<char>>(c2) {
                lemma_parse_prefix(p, s, i + 1, AppConfig { fps: x, ..c }, c2);
            }
        }
        if let Ok(t) = spec_parse_theme(after(arg, "--theme="@.len())) {
            if spec_parse_from(p, i + 1, AppConfig { theme: t, ..c }) == Ok::<AppConfig, Seq<char>>(c2) {
                lemma_parse_prefix(p, s, i + 1, AppConfig { theme: t, ..c }, c2);
            }
        }
        if let Ok(m) = spec_parse_mode(after(arg, "--mode="@.len())) {
            if spec_parse_from(p, i + 1, AppConfig { mode: m, ..c }) == Ok::<AppConfig, Seq<char>>(c2) {
                lemma_parse_prefix(p, s, i + 1, AppConfig { mode: m, ..c }, c2);
            }
        }
    }
}

/// One setting given on the command line.
#[derive(Debug, Clone, Copy, PartialEq, Eq, Structural)]
pub enum Setting {
    Bars(u16),
    Fps(u16),
    Theme(Theme),
    Mode(Mode),
}

/// The name of each theme.
pub open spec fn theme_name(t: Theme) -> Seq<char> {
    match t {
        Theme::Nord => "nord"@,
        Theme::Mono => "mono"@,
        Theme::Amber => "amber"@,
    }
}

/// The name of each mode.
pub open spec fn mode_name(m: Mode) -> Seq<char> {
    match m {
        Mode::Bars => "bars"@,
        Mode::Wave => "wave"@,
        Mode::Peaks => "peaks"@,
    }
}

/// The option that gives a setting.
pub open spec fn setting_flag(s: Setting) -> Seq<char> {
    match s {
        Setting::Bars(_) => "--bars"@,
        Setting::Fps(_) => "--fps"@,
        Setting::Theme(_) => "--theme"@,
        Setting::Mode(_) => "--mode"@,
    }
}

/// How the value of a setting is written: numbers in decimal, themes and
/// modes by name.
pub open spec fn setting_value(s: Setting) -> Seq<char> {
    match s {
        Setting::Bars(v) => decimal_chars(v as nat),
        Setting::Fps(v) => decimal_chars(v as nat),
        Setting::Theme(t) => theme_name(t),
        Setting::Mode(m) => mode_name(m),
    }
}

/// The numbers lie in the ranges that the options accept.
pub open spec fn setting_valid(s: Setting) -> bool {
    match s {
        Setting::Bars(v) => 8 <= v <= 240,
        Setting::Fps(v) => 10 <= v <= 120,
        _ => true,
    }
}

/// The arguments that give a setting: the option and its value as two
/// arguments, or joined by `=` in one.
pub open spec fn option_args(s: Setting, joined: bool) -> Seq<Seq<char>> {
    if joined {
        seq![setting_flag(s) + "="@ + setting_value(s)]
    } else {
        seq![setting_flag(s), setting_value(s)]
    }
}

/// `c` with the setting `s` in place.
pub open spec fn with_setting(c: AppConfig, s: Setting) -> AppConfig {
    match s {
        Setting::Bars(v) => AppConfig { bars: v as usize, ..c },
        Setting::Fps(v) => AppConfig { fps: v, ..c },
        Setting::Theme(t) => AppConfig { theme: t, ..c },
        Setting::Mode(m) => AppConfig { mode: m, ..c },
    }
}

/// Two texts that differ at `i` are different, and neither starts with
/// the other.
proof fn lemma_differs_at(a: Seq<char>, b: Seq<char>, i: int)
    requires
        0 <= i < a.len(),
        i < b.len(),
        a[i] != b[i],
    ensures
        a != b,
        !has_prefix(a, b),
{
    if has_prefix(a, b) {
        assert(a.subrange(0, b.len() as int)[i] == a[i]);
    }
}

/// The names of themes and modes read back as themselves.
proof fn lemma_names_parse(t: Theme, m: Mode)
    ensures
        spec_parse_theme(theme_name(t)) == Ok::<Theme, Seq<char>>(t),
        spec_parse_mode(mode_name(m)) == Ok::<Mode, Seq<char>>(m),
{
    reveal_strlit("nord");
    reveal_strlit("mono");
    reveal_strlit("amber");
    reveal_strlit("bars");
    reveal_strlit("wave");
    reveal_strlit("peaks");
    lemma_differs_at("mono"@, "nord"@, 0);
    lemma_differs_at("wave"@, "bars"@, 0);
    assert("amber"@.len() == 5 && "nord"@.len() == 4 && "mono"@.len() == 4);
    assert("peaks"@.len() == 5 && "bars"@.len() == 4 && "wave"@.len() == 4);
    assert("amber"@ != "nord"@ && "amber"@ != "mono"@);
    assert("peaks"@ != "bars"@ && "peaks"@ != "wave"@);
    match t {
        Theme::Nord => {},
        Theme::Mono => {},
        Theme::Amber => {},
    }
    match m {
        Mode::Bars => {},
        Mode::Wave => {},
        Mode::Peaks => {},
    }
}

/// The literals of the options, spelled out.
proof fn reveal_option_literals()
    ensures
        "--help"@ =~= seq!['-', '-', 'h', 'e', 'l', 'p'],
        "-h"@ =~= seq!['-', 'h'],
        "--bars"@ =~= seq!['-', '-', 'b', 'a', 'r', 's'],
        "--fps"@ =~= seq!['-', '-', 'f', 'p', 's'],
        "--theme"@ =~= seq!['-', '-', 't', 'h', 'e', 'm', 'e'],
        "--mode"@ =~= seq!['-', '-', 'm', 'o', 'd', 'e'],
        "--bars="@ =~= seq!['-', '-', 'b', 'a', 'r', 's', '='],
        "--fps="@ =~= seq!['-', '-', 'f', 'p', 's', '='],
        "--theme="@ =~= seq!['-', '-', 't', 'h', 'e', 'm', 'e', '='],
        "--mode="@ =~= seq!['-', '-', 'm', 'o', 'd', 'e', '='],
        "="@ =~= seq!['='],
{
    reveal_strlit("--help");
    reveal_strlit("-h");
    reveal_strlit("--bars");
    reveal_strlit("--fps");
    reveal_strlit("--theme");
    reveal_strlit("--mode");
    reveal_strlit("--bars=");
    reveal_strlit("--fps=");
    reveal_strlit("--theme=");
    reveal_strlit("--mode=");
    reveal_strlit("=");
}

/// The value of a setting in range reads back as the setting.
proof fn lemma_value_parses(st: Setting)
    requires
        setting_valid(st),
    ensures
        st matches Setting::Bars(v) ==> spec_parse_range(setting_value(st), "--bars"@, 8, 240)
            == Ok::<u16, Seq<char>>(v),
        st matches Setting::Fps(v) ==> spec_parse_range(setting_value(st), "--fps"@, 10, 120)
            == Ok::<u16, Seq<char>>(v),
        st matches Setting::Theme(t) ==> spec_parse_theme(setting_value(st)) == Ok::<Theme, Seq<char>>(t),
        st matches Setting::Mode(m) ==> spec_parse_mode(setting_value(st)) == Ok::<Mode, Seq<char>>(m),
        setting_value(st).len() >= 1,
        st is Fps ==> setting_value(st).len() >= 2,
        st is Theme || st is Mode ==> setting_value(st).len() >= 4,
{
    reveal_strlit("nord");
    reveal_strlit("mono");
    reveal_strlit("amber");
    reveal_strlit("bars");
    reveal_strlit("wave");
    reveal_strlit("peaks");
    match st {
        Setting::Bars(v) => {
            lemma_parse_u16_decimal(v);
            lemma_decimal_digits(v as nat);
        },
        Setting::Fps(v) => {
            lemma_parse_u16_decimal(v);
            lemma_decimal_digits(v as nat);
            lemma_decimal_digits(v as nat / 10);
            assert(setting_value(st) == decimal_chars(v as nat / 10).push(
                crate::text::digit_char(v as nat % 10),
            ));
        },
        Setting::Theme(t) => {
            lemma_names_parse(t, Mode::Bars);
        },
        Setting::Mode(m) => {
            lemma_names_parse(Theme::Nord, m);
        },
    }
}

/// A setting alone on the command line, as two arguments, is accepted and
/// sets just that.
proof fn lemma_spaced_option_alone(st: Setting, c: AppConfig)
    requires
        setting_valid(st),
    ensures
        spec_parse_from(option_args(st, false), 0, c) == Ok::<AppConfig, Seq<char>>(with_setting(c, st)),
{
    reveal_option_literals();
    lemma_value_parses(st);
    let args = option_args(st, false);
    let c2 = with_setting(c, st);
    let flag = setting_flag(st);
    assert(args.len() == 2);
    assert(args[0] == flag);
    assert(args[1] == setting_value(st));
    lemma_differs_at("--bars"@, "--help"@, 2);
    lemma_differs_at("--mode"@, "--help"@, 2);
    lemma_differs_at("--mode"@, "--bars"@, 2);
    assert(flag != "--help"@ && flag != "-h"@);
    assert(spec_parse_from(args, 2, c2) == Ok::<AppConfig, Seq<char>>(c2));
    match st {
        Setting::Bars(_) => {
            assert(flag == "--bars"@);
        },
        Setting::Fps(_) => {
            assert(flag == "--fps"@ && flag != "--bars"@);
        },
        Setting::Theme(_) => {
            assert(flag == "--theme"@ && flag != "--bars"@ && flag != "--fps"@);
        },
        Setting::Mode(_) => {
            assert(flag == "--mode"@ && flag != "--bars"@ && flag != "--fps"@ && flag != "--theme"@);
        },
    }
}

/// A setting alone on the command line, joined to its option by `=`, is
/// accepted and sets just that.
proof fn lemma_joined_option_alone(st: Setting, c: AppConfig)
    requires
        setting_valid(st),
    ensures
        spec_parse_from(option_args(st, true), 0, c) == Ok::<AppConfig, Seq<char>>(with_setting(c, st)),
{
    reveal_option_literals();
    lemma_value_parses(st);
    let args = option_args(st, true);
    let c2 = with_setting(c, st);
    let flag = setting_flag(st);
    let val = setting_value(st);
    let pre = flag + "="@;
    let arg = pre + val;
    assert(args.len() == 1);
    assert(args[0] == arg);
    assert(arg.len() >= 8);
    assert(arg != "--help"@ && arg != "-h"@ && arg != "--bars"@ && arg != "--fps"@);
    assert(arg != "--theme"@ && arg != "--mode"@);
    assert(arg.subrange(0, pre.len() as int) =~= pre);
    assert(has_prefix(arg, pre));
    assert(after(arg, pre.len()) =~= val);
    assert(arg[2] == flag[2]);
    assert(spec_parse_from(args, 1, c2) == Ok::<AppConfig, Seq<char>>(c2));
    match st {
        Setting::Bars(_) => {
            assert(pre =~= "--bars="@);
        },
        Setting::Fps(_) => {
            assert(pre =~= "--fps="@);
            lemma_differs_at(arg, "--bars="@, 2);
        },
        Setting::Theme(_) => {
            assert(pre =~= "--theme="@);
            lemma_differs_at(arg, "--bars="@, 2);
            lemma_differs_at(arg, "--fps="@, 2);
        },
        Setting::Mode(_) => {
            assert(pre =~= "--mode="@);
            lemma_differs_at(arg, "--bars="@, 2);
            lemma_differs_at(arg, "--fps="@, 2);
            lemma_differs_at(arg, "--theme="@, 2);
        },
    }
}

/// A setting alone on the command line is accepted and sets just that.
proof fn lemma_option_alone(st: Setting, joined: bool, c: AppConfig)
    requires
        setting_valid(st),
    ensures
        spec_parse_from(option_args(st, joined), 0, c) == Ok::<AppConfig, Seq<char>>(with_setting(c, st)),
{
    if joined {
        lemma_joined_option_alone(st, c);
    } else {
        lemma_spaced_option_alone(st, c);
    }
}

/// The last option of each setting decides it: if the arguments `prefix`
/// are accepted, then adding any setting in range, written as two arguments
/// or joined by `=`, is accepted too, with that setting changed and every
/// other one as before. Alone, such an option gives the defaults with just
/// that setting changed.
pub proof fn lemma_last_option_sets_setting(prefix: Seq<Seq<char>>, st: Setting, joined: bool)
    requires
        setting_valid(st),
    ensures
        spec_parse_args(prefix) matches Ok(c) ==> spec_parse_args(prefix + option_args(st, joined))
            == Ok::<AppConfig, Seq<char>>(with_setting(c, st)),
        spec_parse_args(option_args(st, joined)) == Ok::<AppConfig, Seq<char>>(
            with_setting(AppConfig { bars: 120, fps: 30, theme: Theme::Nord, mode: Mode::Bars }, st),
        ),
{
    let s = option_args(st, joined);
    if let Ok(c) = spec_parse_args(prefix) {
        lemma_parse_prefix(prefix, s, 0, AppConfig::spec_default(), c);
        lemma_parse_shift(prefix, s, 0, c);
        lemma_option_alone(st, joined, c);
    }
    let empty = Seq::<Seq<char>>::empty();
    assert(empty + s =~= s);
    lemma_parse_prefix(empty, s, 0, AppConfig::spec_default(), AppConfig::spec_default());
    lemma_parse_shift(empty, s, 0, AppConfig::spec_default());
    lemma_option_alone(st, joined, AppConfig::spec_default());
}

/// The last `--fps` option sets the frame rate: if the arguments `prefix`
/// are accepted, then adding `--fps` with a rate from 10 to 120 in decimal,
/// as two arguments or as `--fps=` and the rate, is accepted too, with that
/// frame rate and every other setting as before. With no earlier
/// arguments, `--fps v` gives the defaults with a frame rate of `v`.
pub proof fn lemma_last_fps_option_sets_rate(prefix: Seq<Seq<char>>, v: u16, joined: bool)
    requires
        10 <= v <= 120,
    ensures
        spec_parse_args(prefix) matches Ok(c) ==> spec_parse_args(
            prefix + (if joined {
                seq!["--fps="@ + decimal_chars(v as nat)]
            } else {
                seq!["--fps"@, decimal_chars(v as nat)]
            }),
        ) == Ok::<AppConfig, Seq<char>>(AppConfig { fps: v, ..c }),
        spec_parse_args(
            if joined {
                seq!["--fps="@ + decimal_chars(v as nat)]
            } else {
                seq!["--fps"@, decimal_chars(v as nat)]
            },
        ) == Ok::<AppConfig, Seq<char>>(AppConfig { bars: 120, fps: v, theme: Theme::Nord, mode: Mode::Bars }),
{
    reveal_strlit("--fps=");
    reveal_strlit("--fps");
    reveal_strlit("=");
    let st = Setting::Fps(v);
    assert(setting_flag(st) + "="@ =~= "--fps="@);
    assert(option_args(st, joined) =~= (if joined {
        seq!["--fps="@ + decimal_chars(v as nat)]
    } else {
        seq!["--fps"@, decimal_chars(v as nat)]
    }));
    lemma_last_option_sets_setting(prefix, st, joined);
}

/// The characters of `s` after `prefix`, which `s` starts with.
fn rest_after<'a>(s: &'a str, prefix: &str) -> (r: &'a str)
    requires
        has_prefix(s@, prefix@),
    ensures
        r@ == after(s@, prefix@.len()),
{
    let start = prefix.unicode_len();
    let end = s.unicode_len();
    s.substring_char(start, end)
}

/// Reads the command line into the settings, or the message of the first
/// error; `--help` and `-h` answer `help_request()`.
pub fn parse_args(args: Vec<String>) -> (r: Result<AppConfig, String>)
    ensures
        result_view(r) == spec_parse_args(args_view(args@)),
{
    let ghost av = args_view(args@);
    let mut config = AppConfig::default();
    let n = args.len();
    let mut i: usize = 0;
    while i < n
        invariant
            n == args@.len(),
            av == args_view(args@),
            av.len() == n,
            i <= n,
            spec_parse_from(av, i as int, config) == spec_parse_args(av),
        decreases n - i,
    {
        let arg: &str = args[i].as_str();
        assert(arg@ == av[i as int]);
        if str_equals(arg, "--help") || str_equals(arg, "-h") {
            return Err(String::from_str("__help__"));
        } else if str_equals(arg, "--bars") {
            if i + 1 >= n {
                return Err(String::from_str("--bars requires a value"));
            }
            assert(args[i + 1]@ == av[i + 1]);
            match parse_range(args[i + 1].as_str(), "--bars", 8, 240) {
                Ok(v) => {
                    config.bars = v as usize;
                    i = i + 2;
                },
                Err(e) => {
                    return Err(e);
                },
            }
        } else if str_equals(arg, "--fps") {
            if i + 1 >= n {
                return Err(String::from_str("--fps requires a value"));
            }
            assert(args[i + 1]@ == av[i + 1]);
            match parse_range(args[i + 1].as_str(), "--fps", 10, 120) {
                Ok(v) => {
                    config.fps = v;
                    i = i + 2;
                },
                Err(e) => {
                    return Err(e);
                },
            }
        } else if str_equals(arg, "--theme") {
            if i + 1 >= n {
                return Err(String::from_str("--theme requires a value"));
            }
            assert(args[i + 1]@ == av[i + 1]);
            match parse_theme(args[i + 1].as_str()) {
                Ok(t) => {
                    config.theme = t;
                    i = i + 2;
                },
                Err(e) => {
                    return Err(e);
                },
            }
        } else if str_equals(arg, "--mode") {
            if i + 1 >= n {
                return Err(String::from_str("--mode requires a value"));
            }
            assert(args[i + 1]@ == av[i + 1]);
            match parse_mode(args[i + 1].as_str()) {
                Ok(m) => {
                    config.mode = m;
                    i = i + 2;
                },
                Err(e) => {
                    return Err(e);
                },
            }
        } else if starts_with(arg, "--bars=") {
            match parse_range(rest_after(arg, "--bars="), "--bars", 8, 240) {
                Ok(v) => {
                    config.bars = v as usize;
                    i = i + 1;
                },
                Err(e) => {
                    return Err(e);
                },
            }
        } else if starts_with(arg, "--fps=") {
            match parse_range(rest_after(arg, "--fps="), "--fps", 10, 120) {
                Ok(v) => {
                    config.fps = v;
                    i = i + 1;
                },
                Err(e) => {
                    return Err(e);
                },
            }
        } else if starts_with(arg, "--theme=") {
            match parse_theme(rest_after(arg, "--theme=")) {
                Ok(t) => {
                    config.theme = t;
                    i = i + 1;
                },
                Err(e) => {
                    return Err(e);
                },
            }
        } else if starts_with(arg, "--mode=") {
            match parse_mode(rest_after(arg, "--mode=")) {
                Ok(m) => {
                    config.mode = m;
                    i = i + 1;
                },
                Err(e) => {
                    return Err(e);
                },
            }
        } else {
            return Err(String::from_str("unknown argument: ").concat(arg));
        }
    }
    Ok(config)
}

} // verus!
