//! Keys as the application sees them, and how a key press chooses the band
//! of the spectrum that it excites.
use vstd::prelude::*;
use crate::text::{char_string, decimal_chars, decimal_string};

verus! {

/// A key of the terminal keyboard. Keys that the spectrum does not tell
/// apart (media keys, modifiers, lock keys, ...) are `Other`.
#[derive(Debug, Clone, Copy, PartialEq, Eq, Structural)]
pub enum KeyCode {
    Backspace,
    Enter,
    Left,
    Right,
    Up,
    Down,
    Home,
    End,
    PageUp,
    PageDown,
    Tab,
    BackTab,
    Delete,
    Insert,
    F(u8),
    Char(char),
    Esc,
    Other,
}

/// The modifier keys held with a key, as a set of bits: shift, control,
/// alt, super, hyper and meta, from the lowest bit up.
#[derive(Debug, Clone, Copy, PartialEq, Eq, Structural)]
pub struct KeyModifiers {
    pub bits: u8,
}

impl KeyModifiers {
    /// No modifier held.
    pub fn none() -> (r: KeyModifiers)
        ensures
            r.bits == 0,
    {
        KeyModifiers { bits: 0 }
    }

    /// Only the control key held.
    pub fn control() -> (r: KeyModifiers)
        ensures
            r.bits == 2,
    {
        KeyModifiers { bits: 2 }
    }

    /// The modifiers whose bits are set in `bits`.
    pub fn from_bits(bits: u8) -> (r: KeyModifiers)
        ensures
            r.bits == bits,
    {
        KeyModifiers { bits }
    }

    /// Whether the control key is among the modifiers.
    pub open spec fn has_control(self) -> bool {
        self.bits & 2u8 == 2u8
    }

    /// Whether every modifier of `other` is held in `self`.
    pub fn contains(&self, other: KeyModifiers) -> (r: bool)
        ensures
            r == (self.bits & other.bits == other.bits),
    {
        self.bits & other.bits == other.bits
    }
}

/// A key press: the key and the modifiers held with it.
#[derive(Debug, Clone, Copy, PartialEq, Eq, Structural)]
pub struct KeyEvent {
    pub code: KeyCode,
    pub modifiers: KeyModifiers,
}

impl KeyEvent {
    pub fn new(code: KeyCode, modifiers: KeyModifiers) -> (r: KeyEvent)
        ensures
            r.code == code,
            r.modifiers == modifiers,
    {
        KeyEvent { code, modifiers }
    }
}

/// `x` rotated left by `n` bits within the width of `usize`.
pub open spec fn rotl(x: usize, n: u32) -> usize {
    (x << n) | (x >> ((usize::BITS - n) as u32))
}

/// Rotates the bits of `x` left by `n` places: the bits shifted out at the
/// top come back in at the bottom.
pub fn rotate_left_usize(x: usize, n: u32) -> (r: usize)
    requires
        0 < n < usize::BITS,
    ensures
        r == rotl(x, n),
{
    (x << n) | (x >> (usize::BITS - n))
}

/// The mixing function that spreads neighbouring key values over the bands.
pub open spec fn spec_stable_hash(value: usize) -> usize {
    rotl(value.wrapping_mul(2_654_435_761usize), 7).wrapping_add(0x9e37_79b9usize)
}

/// Mixes `value`: multiply by 2654435761 and rotate left by 7 bits, then
/// add 0x9e3779b9, all modulo the width of `usize`.
pub fn stable_hash(value: usize) -> (r: usize)
    ensures
        r == spec_stable_hash(value),
{
    rotate_left_usize(value.wrapping_mul(2_654_435_761usize), 7).wrapping_add(0x9e37_79b9usize)
}

/// The number that stands for a key before it is mixed into a band.
pub open spec fn key_value(code: KeyCode) -> usize {
    match code {
        KeyCode::Char(ch) => ch as usize,
        KeyCode::Enter => 13,
        KeyCode::Backspace => 8,
        KeyCode::Left => 17,
        KeyCode::Right => 19,
        KeyCode::Up => 23,
        KeyCode::Down => 29,
        KeyCode::Home => 31,
        KeyCode::End => 37,
        KeyCode::PageUp => 41,
        KeyCode::PageDown => 43,
        KeyCode::Delete => 47,
        KeyCode::Insert => 53,
        KeyCode::F(n) => (60 + n) as usize,
        KeyCode::Tab => 71,
        KeyCode::BackTab => 73,
        KeyCode::Esc => 79,
        KeyCode::Other => 89,
    }
}

/// The band that a terminal key press excites among `band_count` bands.
pub open spec fn spec_key_to_band(code: KeyCode, band_count: usize) -> usize {
    if band_count == 0 {
        0
    } else {
        (spec_stable_hash(key_value(code)) % band_count) as usize
    }
}

/// Maps a key to one of `band_count` bands (0 when there are none). The
/// same key always lands on the same band.
pub fn key_to_band(code: KeyCode, band_count: usize) -> (r: usize)
    ensures
        r == spec_key_to_band(code, band_count),
        band_count > 0 ==> r < band_count,
        band_count > 0 ==> (code matches KeyCode::Char(c) ==> r == spec_stable_hash(c as usize)
            % band_count),
{
    if band_count == 0 {
        return 0;
    }
    let value: usize = match code {
        KeyCode::Char(ch) => ch as usize,
        KeyCode::Enter => 13,
        KeyCode::Backspace => 8,
        KeyCode::Left => 17,
        KeyCode::Right => 19,
        KeyCode::Up => 23,
        KeyCode::Down => 29,
        KeyCode::Home => 31,
        KeyCode::End => 37,
        KeyCode::PageUp => 41,
        KeyCode::PageDown => 43,
        KeyCode::Delete => 47,
        KeyCode::Insert => 53,
        KeyCode::F(n) => 60 + n as usize,
        KeyCode::Tab => 71,
        KeyCode::BackTab => 73,
        KeyCode::Esc => 79,
        KeyCode::Other => 89,
    };
    stable_hash(value) % band_count
}

/// A character key is mixed by its code point: every character `c` lands
/// on band `stable_hash(c) % n` of `n` bands.
pub proof fn lemma_char_key_band(c: char, n: usize)
    requires
        n > 0,
    ensures
        spec_key_to_band(KeyCode::Char(c), n) == spec_stable_hash(c as usize) % n,
{
}

/// A character key is labelled with the character itself, and function
/// key `n` with `f` and `n` in decimal.
pub proof fn lemma_key_label_forms(c: char, n: u8)
    ensures
        spec_key_label(KeyCode::Char(c)) == seq![c],
        spec_key_label(KeyCode::F(n)) == "f"@ + decimal_chars(n as nat),
{
}

/// The band that a system-wide key press with `code` excites, given the
/// current wave phase: the phase rotated left by 3 bits is added to the code
/// before mixing, so that a repeated key wanders over the wall.
pub open spec fn spec_dynamic_key_band(code: u16, band_count: usize, phase: usize) -> usize {
    if band_count == 0 {
        0
    } else {
        (spec_stable_hash((code as usize).wrapping_add(rotl(phase, 3))) % band_count) as usize
    }
}

/// Maps a system-wide key code to one of `band_count` bands (0 when there
/// are none), moving with the wave phase.
pub fn dynamic_key_band(code: u16, band_count: usize, phase: usize) -> (r: usize)
    ensures
        r == spec_dynamic_key_band(code, band_count, phase),
        band_count > 0 ==> r < band_count,
{
    if band_count == 0 {
        return 0;
    }
    stable_hash((code as usize).wrapping_add(rotate_left_usize(phase, 3))) % band_count
}

/// At phase zero a system-wide key lands where its code alone sends it:
/// band `stable_hash(code) % n` of `n` bands.
pub proof fn lemma_dynamic_band_at_phase_zero(code: u16, n: usize)
    requires
        n > 0,
    ensures
        spec_dynamic_key_band(code, n, 0) == spec_stable_hash(code as usize) % n,
{
    assert((0usize << 3u32) | (0usize >> ((usize::BITS - 3u32) as u32)) == 0usize) by (bit_vector);
    assert(rotl(0, 3) == 0);
}

/// Every key but a character key is special.
pub open spec fn spec_is_special_key(code: KeyCode) -> bool {
    !(code is Char)
}

/// Whether `code` is a special key (any key that does not type a character).
pub fn is_special_key(code: KeyCode) -> (r: bool)
    ensures
        r == spec_is_special_key(code),
{
    match code {
        KeyCode::Char(_) => false,
        _ => true,
    }
}

/// The label shown for a key: the character itself, `f` and the number of a
/// function key, a lower-case name for the other named keys, `key` for the
/// rest.
pub open spec fn spec_key_label(code: KeyCode) -> Seq<char> {
    match code {
        KeyCode::Char(ch) => seq![ch],
        KeyCode::Enter => "enter"@,
        KeyCode::Backspace => "backspace"@,
        KeyCode::Left => "left"@,
        KeyCode::Right => "right"@,
        KeyCode::Up => "up"@,
        KeyCode::Down => "down"@,
        KeyCode::Home => "home"@,
        KeyCode::End => "end"@,
        KeyCode::PageUp => "pageup"@,
        KeyCode::PageDown => "pagedown"@,
        KeyCode::Delete => "delete"@,
        KeyCode::Insert => "insert"@,
        KeyCode::F(n) => "f"@ + decimal_chars(n as nat),
        KeyCode::Tab => "tab"@,
        KeyCode::BackTab => "backtab"@,
        KeyCode::Esc => "esc"@,
        KeyCode::Other => "key"@,
    }
}

/// The label of a key, as `spec_key_label` gives it.
pub fn key_label(code: KeyCode) -> (r: String)
    ensures
        r@ == spec_key_label(code),
{
    match code {
        KeyCode::Char(ch) => char_string(ch),
        KeyCode::Enter => String::from_str("enter"),
        KeyCode::Backspace => String::from_str("backspace"),
        KeyCode::Left => String::from_str("left"),
        KeyCode::Right => String::from_str("right"),
        KeyCode::Up => String::from_str("up"),
        KeyCode::Down => String::from_str("down"),
        KeyCode::Home => String::from_str("home"),
        KeyCode::End => String::from_str("end"),
        KeyCode::PageUp => String::from_str("pageup"),
        KeyCode::PageDown => String::from_str("pagedown"),
        KeyCode::Delete => String::from_str("delete"),
        KeyCode::Insert => String::from_str("insert"),
        KeyCode::F(n) => String::from_str("f").concat(decimal_string(n as u16).as_str()),
        KeyCode::Tab => String::from_str("tab"),
        KeyCode::BackTab => String::from_str("backtab"),
        KeyCode::Esc => String::from_str("esc"),
        KeyCode::Other => String::from_str("key"),
    }
}

} // verus!
