//! Keystroke to terminal-input bytes: xterm sequences, application cursor
//! and keypad modes, control characters, Alt prefixes and the kitty
//! keyboard protocol (CSI u).

use vstd::prelude::*;
use crate::mode::{spec_kitty_active, TermMode};
use crate::text::{decimal, push_all, push_decimal, single_char, str_bytes, str_eq, utf8, utf8_len};

verus! {

/// The modifier keys held during a keystroke.
#[derive(Clone, Copy, Debug)]
pub struct Modifiers {
    pub control: bool,
    pub alt: bool,
    pub shift: bool,
    /// Command on macOS, the Windows/Super key elsewhere.
    pub platform: bool,
    pub function: bool,
}

impl Modifiers {
    /// No modifier held.
    pub fn none() -> (m: Modifiers)
        ensures
            !m.control && !m.alt && !m.shift && !m.platform && !m.function,
    {
        Modifiers { control: false, alt: false, shift: false, platform: false, function: false }
    }
}

/// A key press: the key's name (`"a"`, `"enter"`, `"f5"`, `"kp0"`, ...) and
/// the text it produces, if any.
#[derive(Clone, Debug)]
pub struct Keystroke {
    pub modifiers: Modifiers,
    pub key: String,
    pub key_char: Option<String>,
}

/// Shape of the escape sequence sent for a non-text key.
#[derive(Clone, Copy, Debug)]
pub enum CsiTail {
    /// `ESC [ <mods> <letter>`
    Letter(u8),
    /// `ESC [ <number> [;<mods>] ~`
    Tilde(u8),
}

/// The keys that are encoded without regard to the text they produce.
#[derive(Clone, Copy, Debug)]
pub enum SpecialKey {
    Backspace,
    Tab,
    Escape,
    Space,
    /// An arrow key and its final letter (`A` up, `B` down, `C` right, `D` left).
    Arrow(u8),
    Home,
    End,
    Csi(CsiTail),
    /// A keypad key: its byte in normal mode and its SS3 letter in application mode.
    Numpad(u8, u8),
    Unknown,
}

// ---------------------------------------------------------------------------
// Specification
// ---------------------------------------------------------------------------

/// Control held alone.
pub open spec fn ctrl_only(m: Modifiers) -> bool {
    m.control && !m.alt && !m.shift && !m.platform
}

/// Some modifier (shift, alt, control or platform) is held.
pub open spec fn spec_modifier_present(m: Modifiers) -> bool {
    m.shift || m.alt || m.control || m.platform
}

/// The kitty modifier bitmask: shift 1, alt 2, control 4, super 8.
pub open spec fn spec_kitty_mask(m: Modifiers) -> nat {
    (if m.shift { 1nat } else { 0nat }) + (if m.alt { 2nat } else { 0nat }) + (if m.control {
        4nat
    } else {
        0nat
    }) + (if m.platform { 8nat } else { 0nat })
}

/// The xterm modifier number: one plus shift 1, control 4, super 8. Alt is
/// not counted: an Alt combination is sent behind an ESC prefix.
pub open spec fn spec_mod_number(m: Modifiers) -> nat {
    1 + (if m.shift { 1nat } else { 0nat }) + (if m.control { 4nat } else { 0nat }) + (if m.platform {
        8nat
    } else {
        0nat
    })
}

/// The modifier number as it is written after its `;`: empty when it is
/// one (Alt alone), else its decimal digits.
pub open spec fn spec_mod_digits(m: Modifiers) -> Seq<u8> {
    if spec_mod_number(m) == 1 {
        seq![]
    } else {
        decimal(spec_mod_number(m))
    }
}

/// The modifier parameter of a CSI sequence: empty without modifiers,
/// otherwise `1;` and the modifier number, so `1;` for Alt, `1;2` for
/// Alt+Shift and `1;5` for Control.
pub open spec fn spec_csi_param(m: Modifiers) -> Seq<u8> {
    if !spec_modifier_present(m) {
        seq![]
    } else {
        seq![49u8, 59u8] + spec_mod_digits(m)
    }
}

/// The modifier suffix of a `~` key: empty without modifiers, otherwise
/// `;` and the modifier number.
pub open spec fn spec_tilde_param(m: Modifiers) -> Seq<u8> {
    if !spec_modifier_present(m) {
        seq![]
    } else {
        seq![59u8] + spec_mod_digits(m)
    }
}

/// `ESC [ <mods> <tail>`
pub open spec fn csi(m: Modifiers, tail: Seq<u8>) -> Seq<u8> {
    seq![27u8, 91u8] + spec_csi_param(m) + tail
}

/// `c` is an ASCII letter.
pub open spec fn is_ascii_letter(c: char) -> bool {
    (97 <= (c as u32) <= 122) || (65 <= (c as u32) <= 90)
}

/// The control character for `c`: letters map to their position in the
/// alphabet (Ctrl+A is 1), and the xterm digit and punctuation aliases.
pub open spec fn spec_char_to_ctrl(c: char) -> Seq<u8> {
    if 97 <= (c as u32) <= 122 {
        seq![((c as u32) - 96) as u8]
    } else if 65 <= (c as u32) <= 90 {
        seq![((c as u32) - 64) as u8]
    } else if c == '2' || c == '@' || c == ' ' {
        seq![0u8]
    } else if c == '3' || c == '[' || c == '\x1b' {
        seq![0x1bu8]
    } else if c == '4' || c == '\\' {
        seq![0x1cu8]
    } else if c == '5' || c == ']' {
        seq![0x1du8]
    } else if c == '6' || c == '^' {
        seq![0x1eu8]
    } else if c == '7' || c == '_' || c == '/' {
        seq![0x1fu8]
    } else if c == '8' {
        seq![0x7fu8]
    } else {
        seq![]
    }
}

/// The tail of the CSI sequence of an editing or function key.
pub open spec fn spec_csi_tail(key: Seq<char>) -> Option<CsiTail> {
    if key == "pageup"@ {
        Some(CsiTail::Tilde(5))
    } else if key == "pagedown"@ {
        Some(CsiTail::Tilde(6))
    } else if key == "delete"@ {
        Some(CsiTail::Tilde(3))
    } else if key == "insert"@ {
        Some(CsiTail::Tilde(2))
    } else if key == "f1"@ {
        Some(CsiTail::Letter(80))
    } else if key == "f2"@ {
        Some(CsiTail::Letter(81))
    } else if key == "f3"@ {
        Some(CsiTail::Letter(82))
    } else if key == "f4"@ {
        Some(CsiTail::Letter(83))
    } else if key == "f5"@ {
        Some(CsiTail::Tilde(15))
    } else if key == "f6"@ {
        Some(CsiTail::Tilde(17))
    } else if key == "f7"@ {
        Some(CsiTail::Tilde(18))
    } else if key == "f8"@ {
        Some(CsiTail::Tilde(19))
    } else if key == "f9"@ {
        Some(CsiTail::Tilde(20))
    } else if key == "f10"@ {
        Some(CsiTail::Tilde(21))
    } else if key == "f11"@ {
        Some(CsiTail::Tilde(23))
    } else if key == "f12"@ {
        Some(CsiTail::Tilde(24))
    } else if key == "f13"@ {
        Some(CsiTail::Tilde(25))
    } else if key == "f14"@ {
        Some(CsiTail::Tilde(26))
    } else if key == "f15"@ {
        Some(CsiTail::Tilde(28))
    } else if key == "f16"@ {
        Some(CsiTail::Tilde(29))
    } else if key == "f17"@ {
        Some(CsiTail::Tilde(31))
    } else if key == "f18"@ {
        Some(CsiTail::Tilde(32))
    } else if key == "f19"@ {
        Some(CsiTail::Tilde(33))
    } else if key == "f20"@ {
        Some(CsiTail::Tilde(34))
    } else {
        None
    }
}

/// The keypad keys: the byte sent in normal mode and the SS3 letter sent
/// in application-keypad mode.
pub open spec fn spec_numpad_codes(key: Seq<char>) -> Option<(u8, u8)> {
    if key == "kp0"@ {
        Some((48u8, 112u8))
    } else if key == "kp1"@ {
        Some((49u8, 113u8))
    } else if key == "kp2"@ {
        Some((50u8, 114u8))
    } else if key == "kp3"@ {
        Some((51u8, 115u8))
    } else if key == "kp4"@ {
        Some((52u8, 116u8))
    } else if key == "kp5"@ {
        Some((53u8, 117u8))
    } else if key == "kp6"@ {
        Some((54u8, 118u8))
    } else if key == "kp7"@ {
        Some((55u8, 119u8))
    } else if key == "kp8"@ {
        Some((56u8, 120u8))
    } else if key == "kp9"@ {
        Some((57u8, 121u8))
    } else if key == "kpadd"@ {
        Some((43u8, 107u8))
    } else if key == "kpsubtract"@ {
        Some((45u8, 109u8))
    } else if key == "kpmultiply"@ {
        Some((42u8, 106u8))
    } else if key == "kpdivide"@ {
        Some((47u8, 111u8))
    } else if key == "kpdecimal"@ {
        Some((46u8, 110u8))
    } else if key == "kpenter"@ {
        Some((13u8, 77u8))
    } else {
        None
    }
}

/// Which special key a key name denotes.
pub open spec fn spec_special_key(key: Seq<char>) -> SpecialKey {
    if key == "backspace"@ {
        SpecialKey::Backspace
    } else if key == "tab"@ {
        SpecialKey::Tab
    } else if key == "escape"@ {
        SpecialKey::Escape
    } else if key == "space"@ {
        SpecialKey::Space
    } else if key == "up"@ {
        SpecialKey::Arrow(65)
    } else if key == "down"@ {
        SpecialKey::Arrow(66)
    } else if key == "right"@ {
        SpecialKey::Arrow(67)
    } else if key == "left"@ {
        SpecialKey::Arrow(68)
    } else if key == "home"@ {
        SpecialKey::Home
    } else if key == "end"@ {
        SpecialKey::End
    } else if spec_csi_tail(key) is Some {
        SpecialKey::Csi(spec_csi_tail(key)->0)
    } else {
        match spec_numpad_codes(key) {
            Some((n, a)) => SpecialKey::Numpad(n, a),
            None => SpecialKey::Unknown,
        }
    }
}

/// Bytes of a CSI key: `ESC [ <mods> <letter>`, or `ESC [ <number> [;<mods>] ~`
/// with the modifier after the key number.
pub open spec fn csi_key_bytes(t: CsiTail, m: Modifiers) -> Seq<u8> {
    match t {
        CsiTail::Letter(l) => csi(m, seq![l]),
        CsiTail::Tilde(n) => seq![27u8, 91u8] + decimal(n as nat) + spec_tilde_param(m) + seq![126u8],
    }
}

/// Arrow keys: SS3 in application-cursor mode without modifiers, CSI otherwise.
pub open spec fn spec_arrow_seq(letter: u8, m: Modifiers, app_cursor: bool) -> Seq<u8> {
    if app_cursor && !spec_modifier_present(m) {
        seq![27u8, 79u8, letter]
    } else {
        csi(m, seq![letter])
    }
}

/// Keypad keys: the plain byte in normal mode, SS3 letter in application mode.
pub open spec fn spec_numpad(normal: u8, app: u8, app_keypad: bool) -> Seq<u8> {
    if app_keypad {
        seq![27u8, 79u8, app]
    } else {
        seq![normal]
    }
}

/// Bytes of a special key under the given modifiers and mode.
pub open spec fn special_bytes(k: SpecialKey, m: Modifiers, mode: TermMode) -> Seq<u8> {
    match k {
        SpecialKey::Backspace => seq![0x7fu8],
        SpecialKey::Tab => if m.shift {
            seq![27u8, 91u8, 90u8]
        } else {
            seq![9u8]
        },
        SpecialKey::Escape => seq![27u8],
        SpecialKey::Space => seq![32u8],
        SpecialKey::Arrow(l) => spec_arrow_seq(l, m, mode.app_cursor),
        SpecialKey::Home => if spec_modifier_present(m) || !mode.app_cursor {
            csi(m, seq![72u8])
        } else {
            seq![27u8, 79u8, 72u8]
        },
        SpecialKey::End => if spec_modifier_present(m) || !mode.app_cursor {
            csi(m, seq![70u8])
        } else {
            seq![27u8, 79u8, 70u8]
        },
        SpecialKey::Csi(t) => csi_key_bytes(t, m),
        SpecialKey::Numpad(n, a) => spec_numpad(n, a, mode.app_keypad),
        SpecialKey::Unknown => seq![],
    }
}

/// The special keys whose sequence carries the modifier parameter: arrows,
/// Home, End, and the editing and function keys.
pub open spec fn spec_takes_modifier(k: SpecialKey) -> bool {
    k is Arrow || k is Home || k is End || k is Csi
}

/// Kitty functional key codes of the non-text keys.
pub open spec fn spec_kitty_code(key: Seq<char>) -> Option<u32> {
    if key == "escape"@ {
        Some(57344)
    } else if key == "enter"@ || key == "return"@ {
        Some(13)
    } else if key == "tab"@ {
        Some(9)
    } else if key == "backspace"@ {
        Some(127)
    } else if key == "space"@ {
        Some(32)
    } else if key == "delete"@ {
        Some(57356)
    } else if key == "insert"@ {
        Some(57355)
    } else if key == "up"@ {
        Some(57345)
    } else if key == "down"@ {
        Some(57346)
    } else if key == "right"@ {
        Some(57347)
    } else if key == "left"@ {
        Some(57348)
    } else if key == "home"@ {
        Some(57349)
    } else if key == "end"@ {
        Some(57350)
    } else if key == "pageup"@ {
        Some(57353)
    } else if key == "pagedown"@ {
        Some(57354)
    } else if spec_kitty_fn_index(key) is Some {
        Some((57376 + spec_kitty_fn_index(key)->0) as u32)
    } else if spec_kitty_kp_index(key) is Some {
        Some((57400 + spec_kitty_kp_index(key)->0) as u32)
    } else {
        None
    }
}

/// F1..F20 as 0..19.
pub open spec fn spec_kitty_fn_index(key: Seq<char>) -> Option<nat> {
    if key == "f1"@ {
        Some(0)
    } else if key == "f2"@ {
        Some(1)
    } else if key == "f3"@ {
        Some(2)
    } else if key == "f4"@ {
        Some(3)
    } else if key == "f5"@ {
        Some(4)
    } else if key == "f6"@ {
        Some(5)
    } else if key == "f7"@ {
        Some(6)
    } else if key == "f8"@ {
        Some(7)
    } else if key == "f9"@ {
        Some(8)
    } else if key == "f10"@ {
        Some(9)
    } else if key == "f11"@ {
        Some(10)
    } else if key == "f12"@ {
        Some(11)
    } else if key == "f13"@ {
        Some(12)
    } else if key == "f14"@ {
        Some(13)
    } else if key == "f15"@ {
        Some(14)
    } else if key == "f16"@ {
        Some(15)
    } else if key == "f17"@ {
        Some(16)
    } else if key == "f18"@ {
        Some(17)
    } else if key == "f19"@ {
        Some(18)
    } else if key == "f20"@ {
        Some(19)
    } else {
        None
    }
}

/// Keypad keys in kitty order: digits, decimal, enter, add, subtract,
/// multiply, divide as 0..15.
pub open spec fn spec_kitty_kp_index(key: Seq<char>) -> Option<nat> {
    if key == "kp0"@ {
        Some(0)
    } else if key == "kp1"@ {
        Some(1)
    } else if key == "kp2"@ {
        Some(2)
    } else if key == "kp3"@ {
        Some(3)
    } else if key == "kp4"@ {
        Some(4)
    } else if key == "kp5"@ {
        Some(5)
    } else if key == "kp6"@ {
        Some(6)
    } else if key == "kp7"@ {
        Some(7)
    } else if key == "kp8"@ {
        Some(8)
    } else if key == "kp9"@ {
        Some(9)
    } else if key == "kpdecimal"@ {
        Some(10)
    } else if key == "kpenter"@ {
        Some(11)
    } else if key == "kpadd"@ {
        Some(12)
    } else if key == "kpsubtract"@ {
        Some(13)
    } else if key == "kpmultiply"@ {
        Some(14)
    } else if key == "kpdivide"@ {
        Some(15)
    } else {
        None
    }
}

/// `ESC [ <code> ; <mods> [1] u`
pub open spec fn kitty_seq(code: nat, m: Modifiers, mode: TermMode) -> Seq<u8> {
    seq![27u8, 91u8] + decimal(code) + seq![59u8] + decimal(spec_kitty_mask(m)) + (if mode.report_event_types {
        seq![49u8]
    } else {
        seq![]
    }) + seq![117u8]
}

/// The text is exactly one byte long in UTF-8 (a single ASCII character).
pub open spec fn one_byte(s: Seq<char>) -> bool {
    utf8(s).len() == 1
}

/// Kitty keyboard protocol encoding of a keystroke.
pub open spec fn spec_kitty_encode(
    m: Modifiers,
    key: Seq<char>,
    key_char: Option<Seq<char>>,
    mode: TermMode,
) -> Seq<u8> {
    if key_char is Some && one_byte(key_char->0) {
        kitty_seq(key_char->0[0] as nat, m, mode)
    } else if one_byte(key) {
        kitty_seq(key[0] as nat, m, mode)
    } else if spec_kitty_code(key) is Some {
        kitty_seq(spec_kitty_code(key)->0 as nat, m, mode)
    } else {
        seq![]
    }
}

/// The key is Enter (named `enter` or `return`).
pub open spec fn is_enter(key: Seq<char>) -> bool {
    key == "enter"@ || key == "return"@
}

/// Control held alone: the control character of the produced text or the
/// key name, and a few keys with a control meaning of their own; empty
/// when there is none, and an arrow, Home, End, editing or function key is
/// then encoded with the Control modifier.
pub open spec fn ctrl_bytes(key: Seq<char>, key_char: Option<Seq<char>>) -> Seq<u8> {
    if key_char is Some && one_byte(key_char->0) && spec_char_to_ctrl(key_char->0[0]).len() > 0 {
        spec_char_to_ctrl(key_char->0[0])
    } else if one_byte(key) && spec_char_to_ctrl(key[0]).len() > 0 {
        spec_char_to_ctrl(key[0])
    } else if key == "backspace"@ {
        seq![0x7fu8]
    } else if key == "delete"@ {
        seq![27u8, 91u8, 51u8, 59u8, 53u8, 126u8]
    } else {
        seq![]
    }
}

/// The text a keystroke produces when no modifier other than shift is held.
pub open spec fn plain_text(m: Modifiers, key: Seq<char>, key_char: Option<Seq<char>>) -> Option<
    Seq<u8>,
> {
    if m.control || m.alt || m.platform {
        None
    } else if key_char is Some && key_char->0.len() > 0 {
        Some(utf8(key_char->0))
    } else if one_byte(key) {
        Some(utf8(key))
    } else {
        None
    }
}

/// Keystroke encoding without the Alt-prefix rule.
pub open spec fn key_bytes_no_alt(
    m: Modifiers,
    key: Seq<char>,
    key_char: Option<Seq<char>>,
    mode: TermMode,
) -> Seq<u8> {
    if spec_kitty_active(mode) {
        spec_kitty_encode(m, key, key_char, mode)
    } else if is_enter(key) {
        if m.alt {
            seq![27u8, 13u8]
        } else if ctrl_only(m) {
            seq![10u8]
        } else {
            seq![13u8]
        }
    } else if ctrl_only(m) {
        if ctrl_bytes(key, key_char).len() > 0 {
            ctrl_bytes(key, key_char)
        } else if spec_takes_modifier(spec_special_key(key)) {
            special_bytes(spec_special_key(key), m, mode)
        } else {
            seq![]
        }
    } else if plain_text(m, key, key_char) is Some {
        plain_text(m, key, key_char)->0
    } else {
        special_bytes(spec_special_key(key), m, mode)
    }
}

/// What follows ESC for an Alt combination: the produced text, the key
/// itself, or the encoding of the keystroke without Alt.
pub open spec fn alt_inner(
    m: Modifiers,
    key: Seq<char>,
    key_char: Option<Seq<char>>,
    mode: TermMode,
) -> Seq<u8> {
    if key_char is Some && key_char->0.len() > 0 {
        utf8(key_char->0)
    } else if one_byte(key) {
        utf8(key)
    } else {
        key_bytes_no_alt(Modifiers { alt: false, ..m }, key, key_char, mode)
    }
}

/// The Alt rule applies: no kitty protocol, not Enter, Alt held without
/// the platform key, and not Control alone.
pub open spec fn alt_prefix_applies(m: Modifiers, key: Seq<char>, mode: TermMode) -> bool {
    !spec_kitty_active(mode) && !is_enter(key) && !ctrl_only(m) && m.alt && !m.platform
}

/// The bytes a keystroke sends to the terminal (empty when it sends nothing).
pub open spec fn spec_keystroke_to_bytes(
    m: Modifiers,
    key: Seq<char>,
    key_char: Option<Seq<char>>,
    mode: TermMode,
) -> Seq<u8> {
    if alt_prefix_applies(m, key, mode) && alt_inner(m, key, key_char, mode).len() > 0 {
        seq![27u8] + alt_inner(m, key, key_char, mode)
    } else {
        key_bytes_no_alt(m, key, key_char, mode)
    }
}

/// The view of an optional string.
pub open spec fn opt_view(s: Option<String>) -> Option<Seq<char>> {
    match s {
        Some(t) => Some(t@),
        None => None,
    }
}

/// The bytes a keystroke sends.
pub open spec fn keystroke_spec(k: Keystroke, mode: TermMode) -> Seq<u8> {
    spec_keystroke_to_bytes(k.modifiers, k.key@, opt_view(k.key_char), mode)
}

// ---------------------------------------------------------------------------
// Implementation
// ---------------------------------------------------------------------------

/// Encode modifiers as the kitty bitmask: shift 1, alt 2, control 4, super 8.
pub fn kitty_modifier_mask(mods: &Modifiers) -> (r: u8)
    ensures
        r as nat == spec_kitty_mask(*mods),
        r < 16,
{
    let mut mask: u8 = 0;
    if mods.shift {
        mask += 1;
    }
    if mods.alt {
        mask += 2;
    }
    if mods.control {
        mask += 4;
    }
    if mods.platform {
        mask += 8;
    }
    mask
}

/// Whether any of shift, alt, control or platform is held.
pub fn modifier_present(mods: &Modifiers) -> (r: bool)
    ensures
        r == spec_modifier_present(*mods),
{
    mods.shift || mods.alt || mods.control || mods.platform
}

/// The xterm modifier number (Alt not counted).
fn mod_number(mods: &Modifiers) -> (r: u8)
    ensures
        r as nat == spec_mod_number(*mods),
{
    let mut n: u8 = 1;
    if mods.shift {
        n += 1;
    }
    if mods.control {
        n += 4;
    }
    if mods.platform {
        n += 8;
    }
    n
}

/// Appends the modifier number's digits (none when it is one).
fn push_mod_digits(out: &mut Vec<u8>, modifiers: &Modifiers)
    ensures
        final(out)@ == old(out)@ + spec_mod_digits(*modifiers),
{
    let n = mod_number(modifiers);
    if n != 1 {
        push_decimal(out, n as u64);
    }
    assert(final(out)@ =~= old(out)@ + spec_mod_digits(*modifiers));
}

/// Appends the CSI modifier parameter (`""`, or `1;` and the modifier
/// number) to `out`.
pub fn push_modifier_csi_param(out: &mut Vec<u8>, modifiers: &Modifiers)
    ensures
        final(out)@ == old(out)@ + spec_csi_param(*modifiers),
{
    if modifier_present(modifiers) {
        out.push(49);
        out.push(59);
        push_mod_digits(out, modifiers);
    }
    assert(final(out)@ =~= old(out)@ + spec_csi_param(*modifiers));
}

/// Appends the modifier suffix of a `~` key (`""`, or `;` and the
/// modifier number) to `out`.
fn push_tilde_param(out: &mut Vec<u8>, modifiers: &Modifiers)
    ensures
        final(out)@ == old(out)@ + spec_tilde_param(*modifiers),
{
    if modifier_present(modifiers) {
        out.push(59);
        push_mod_digits(out, modifiers);
    }
    assert(final(out)@ =~= old(out)@ + spec_tilde_param(*modifiers));
}

/// Format the modifier part of a CSI sequence: `1;` for Alt, `1;2` for
/// Alt+Shift, `1;5` for Control, empty without modifiers.
pub fn modifier_csi_param(modifiers: &Modifiers) -> (r: Vec<u8>)
    ensures
        r@ == spec_csi_param(*modifiers),
{
    let mut out: Vec<u8> = Vec::new();
    push_modifier_csi_param(&mut out, modifiers);
    assert(out@ =~= spec_csi_param(*modifiers));
    out
}

/// `ESC [ <mods> <tail...>` as a vector.
fn csi_with(modifiers: &Modifiers, tail: &[u8]) -> (r: Vec<u8>)
    ensures
        r@ == csi(*modifiers, tail@),
{
    let mut out: Vec<u8> = Vec::new();
    out.push(27);
    out.push(91);
    push_modifier_csi_param(&mut out, modifiers);
    push_all(&mut out, tail);
    assert(out@ =~= csi(*modifiers, tail@));
    out
}

/// `ESC O <letter>`
fn ss3(letter: u8) -> (r: Vec<u8>)
    ensures
        r@ == seq![27u8, 79u8, letter],
{
    let mut out: Vec<u8> = Vec::new();
    out.push(27);
    out.push(79);
    out.push(letter);
    assert(out@ =~= seq![27u8, 79u8, letter]);
    out
}

/// A vector holding a single byte.
fn one(b: u8) -> (r: Vec<u8>)
    ensures
        r@ == seq![b],
{
    let mut out: Vec<u8> = Vec::new();
    out.push(b);
    assert(out@ =~= seq![b]);
    out
}

/// Arrow key sequence: CSI normally, SS3 in application-cursor mode without
/// modifiers.
pub fn arrow_seq(letter: u8, modifiers: &Modifiers, app_cursor: bool) -> (r: Vec<u8>)
    ensures
        r@ == spec_arrow_seq(letter, *modifiers, app_cursor),
{
    if app_cursor && !modifier_present(modifiers) {
        ss3(letter)
    } else {
        csi_with(modifiers, &[letter])
    }
}

/// Keypad key: its own byte normally, `ESC O <app>` in application mode.
pub fn numpad(normal: u8, app: u8, app_keypad: bool) -> (r: Vec<u8>)
    ensures
        r@ == spec_numpad(normal, app, app_keypad),
{
    if app_keypad {
        ss3(app)
    } else {
        one(normal)
    }
}

/// The control character for `c` (empty when it has none).
pub fn char_to_ctrl(c: char) -> (r: Vec<u8>)
    ensures
        r@ == spec_char_to_ctrl(c),
{
    let u = c as u32;
    if 97 <= u && u <= 122 {
        one((u - 96) as u8)
    } else if 65 <= u && u <= 90 {
        one((u - 64) as u8)
    } else if c == '2' || c == '@' || c == ' ' {
        one(0)
    } else if c == '3' || c == '[' || c == '\x1b' {
        one(0x1b)
    } else if c == '4' || c == '\\' {
        one(0x1c)
    } else if c == '5' || c == ']' {
        one(0x1d)
    } else if c == '6' || c == '^' {
        one(0x1e)
    } else if c == '7' || c == '_' || c == '/' {
        one(0x1f)
    } else if c == '8' {
        one(0x7f)
    } else {
        Vec::new()
    }
}

/// The CSI tail of an editing or function key.
pub fn csi_tail(key: &str) -> (r: Option<CsiTail>)
    ensures
        r == spec_csi_tail(key@),
{
    if str_eq(key, "pageup") {
        Some(CsiTail::Tilde(5))
    } else if str_eq(key, "pagedown") {
        Some(CsiTail::Tilde(6))
    } else if str_eq(key, "delete") {
        Some(CsiTail::Tilde(3))
    } else if str_eq(key, "insert") {
        Some(CsiTail::Tilde(2))
    } else if str_eq(key, "f1") {
        Some(CsiTail::Letter(80))
    } else if str_eq(key, "f2") {
        Some(CsiTail::Letter(81))
    } else if str_eq(key, "f3") {
        Some(CsiTail::Letter(82))
    } else if str_eq(key, "f4") {
        Some(CsiTail::Letter(83))
    } else if str_eq(key, "f5") {
        Some(CsiTail::Tilde(15))
    } else if str_eq(key, "f6") {
        Some(CsiTail::Tilde(17))
    } else if str_eq(key, "f7") {
        Some(CsiTail::Tilde(18))
    } else if str_eq(key, "f8") {
        Some(CsiTail::Tilde(19))
    } else if str_eq(key, "f9") {
        Some(CsiTail::Tilde(20))
    } else if str_eq(key, "f10") {
        Some(CsiTail::Tilde(21))
    } else if str_eq(key, "f11") {
        Some(CsiTail::Tilde(23))
    } else if str_eq(key, "f12") {
        Some(CsiTail::Tilde(24))
    } else if str_eq(key, "f13") {
        Some(CsiTail::Tilde(25))
    } else if str_eq(key, "f14") {
        Some(CsiTail::Tilde(26))
    } else if str_eq(key, "f15") {
        Some(CsiTail::Tilde(28))
    } else if str_eq(key, "f16") {
        Some(CsiTail::Tilde(29))
    } else if str_eq(key, "f17") {
        Some(CsiTail::Tilde(31))
    } else if str_eq(key, "f18") {
        Some(CsiTail::Tilde(32))
    } else if str_eq(key, "f19") {
        Some(CsiTail::Tilde(33))
    } else if str_eq(key, "f20") {
        Some(CsiTail::Tilde(34))
    } else {
        None
    }
}

/// The keypad codes of a key: its normal-mode byte and application letter.
pub fn numpad_codes(key: &str) -> (r: Option<(u8, u8)>)
    ensures
        r == spec_numpad_codes(key@),
{
    if str_eq(key, "kp0") {
        Some((48, 112))
    } else if str_eq(key, "kp1") {
        Some((49, 113))
    } else if str_eq(key, "kp2") {
        Some((50, 114))
    } else if str_eq(key, "kp3") {
        Some((51, 115))
    } else if str_eq(key, "kp4") {
        Some((52, 116))
    } else if str_eq(key, "kp5") {
        Some((53, 117))
    } else if str_eq(key, "kp6") {
        Some((54, 118))
    } else if str_eq(key, "kp7") {
        Some((55, 119))
    } else if str_eq(key, "kp8") {
        Some((56, 120))
    } else if str_eq(key, "kp9") {
        Some((57, 121))
    } else if str_eq(key, "kpadd") {
        Some((43, 107))
    } else if str_eq(key, "kpsubtract") {
        Some((45, 109))
    } else if str_eq(key, "kpmultiply") {
        Some((42, 106))
    } else if str_eq(key, "kpdivide") {
        Some((47, 111))
    } else if str_eq(key, "kpdecimal") {
        Some((46, 110))
    } else if str_eq(key, "kpenter") {
        Some((13, 77))
    } else {
        None
    }
}

/// Which special key a key name denotes.
pub fn special_key(key: &str) -> (r: SpecialKey)
    ensures
        r == spec_special_key(key@),
{
    if str_eq(key, "backspace") {
        SpecialKey::Backspace
    } else if str_eq(key, "tab") {
        SpecialKey::Tab
    } else if str_eq(key, "escape") {
        SpecialKey::Escape
    } else if str_eq(key, "space") {
        SpecialKey::Space
    } else if str_eq(key, "up") {
        SpecialKey::Arrow(65)
    } else if str_eq(key, "down") {
        SpecialKey::Arrow(66)
    } else if str_eq(key, "right") {
        SpecialKey::Arrow(67)
    } else if str_eq(key, "left") {
        SpecialKey::Arrow(68)
    } else if str_eq(key, "home") {
        SpecialKey::Home
    } else if str_eq(key, "end") {
        SpecialKey::End
    } else {
        match csi_tail(key) {
            Some(t) => SpecialKey::Csi(t),
            None => match numpad_codes(key) {
                Some((n, a)) => SpecialKey::Numpad(n, a),
                None => SpecialKey::Unknown,
            },
        }
    }
}

/// Whether a special key's sequence carries the modifier parameter.
pub fn takes_modifier(k: SpecialKey) -> (r: bool)
    ensures
        r == spec_takes_modifier(k),
{
    match k {
        SpecialKey::Arrow(_) | SpecialKey::Home | SpecialKey::End | SpecialKey::Csi(_) => true,
        _ => false,
    }
}

/// Bytes of a special key.
pub fn special_key_bytes(k: SpecialKey, modifiers: &Modifiers, mode: TermMode) -> (r: Vec<u8>)
    ensures
        r@ == special_bytes(k, *modifiers, mode),
{
    match k {
        SpecialKey::Backspace => one(0x7f),
        SpecialKey::Tab => {
            if modifiers.shift {
                let mut out: Vec<u8> = Vec::new();
                out.push(27);
                out.push(91);
                out.push(90);
                assert(out@ =~= seq![27u8, 91u8, 90u8]);
                out
            } else {
                one(9)
            }
        },
        SpecialKey::Escape => one(27),
        SpecialKey::Space => one(32),
        SpecialKey::Arrow(l) => arrow_seq(l, modifiers, mode.app_cursor),
        SpecialKey::Home => {
            if modifier_present(modifiers) || !mode.app_cursor {
                csi_with(modifiers, &[72])
            } else {
                ss3(72)
            }
        },
        SpecialKey::End => {
            if modifier_present(modifiers) || !mode.app_cursor {
                csi_with(modifiers, &[70])
            } else {
                ss3(70)
            }
        },
        SpecialKey::Csi(t) => match t {
            CsiTail::Letter(l) => csi_with(modifiers, &[l]),
            CsiTail::Tilde(n) => {
                let mut out: Vec<u8> = Vec::new();
                out.push(27);
                out.push(91);
                push_decimal(&mut out, n as u64);
                push_tilde_param(&mut out, modifiers);
                out.push(126);
                assert(out@ =~= csi_key_bytes(t, *modifiers));
                out
            },
        },
        SpecialKey::Numpad(n, a) => numpad(n, a, mode.app_keypad),
        SpecialKey::Unknown => Vec::new(),
    }
}

/// Index of F1..F20 in kitty's function-key block.
fn kitty_fn_index(key: &str) -> (r: Option<u32>)
    ensures
        r matches Some(i) ==> spec_kitty_fn_index(key@) == Some(i as nat),
        r is None ==> spec_kitty_fn_index(key@) is None,
{
    if str_eq(key, "f1") {
        Some(0)
    } else if str_eq(key, "f2") {
        Some(1)
    } else if str_eq(key, "f3") {
        Some(2)
    } else if str_eq(key, "f4") {
        Some(3)
    } else if str_eq(key, "f5") {
        Some(4)
    } else if str_eq(key, "f6") {
        Some(5)
    } else if str_eq(key, "f7") {
        Some(6)
    } else if str_eq(key, "f8") {
        Some(7)
    } else if str_eq(key, "f9") {
        Some(8)
    } else if str_eq(key, "f10") {
        Some(9)
    } else if str_eq(key, "f11") {
        Some(10)
    } else if str_eq(key, "f12") {
        Some(11)
    } else if str_eq(key, "f13") {
        Some(12)
    } else if str_eq(key, "f14") {
        Some(13)
    } else if str_eq(key, "f15") {
        Some(14)
    } else if str_eq(key, "f16") {
        Some(15)
    } else if str_eq(key, "f17") {
        Some(16)
    } else if str_eq(key, "f18") {
        Some(17)
    } else if str_eq(key, "f19") {
        Some(18)
    } else if str_eq(key, "f20") {
        Some(19)
    } else {
        None
    }
}

/// Index of a keypad key in kitty's keypad block.
fn kitty_kp_index(key: &str) -> (r: Option<u32>)
    ensures
        r matches Some(i) ==> spec_kitty_kp_index(key@) == Some(i as nat),
        r is None ==> spec_kitty_kp_index(key@) is None,
{
    if str_eq(key, "kp0") {
        Some(0)
    } else if str_eq(key, "kp1") {
        Some(1)
    } else if str_eq(key, "kp2") {
        Some(2)
    } else if str_eq(key, "kp3") {
        Some(3)
    } else if str_eq(key, "kp4") {
        Some(4)
    } else if str_eq(key, "kp5") {
        Some(5)
    } else if str_eq(key, "kp6") {
        Some(6)
    } else if str_eq(key, "kp7") {
        Some(7)
    } else if str_eq(key, "kp8") {
        Some(8)
    } else if str_eq(key, "kp9") {
        Some(9)
    } else if str_eq(key, "kpdecimal") {
        Some(10)
    } else if str_eq(key, "kpenter") {
        Some(11)
    } else if str_eq(key, "kpadd") {
        Some(12)
    } else if str_eq(key, "kpsubtract") {
        Some(13)
    } else if str_eq(key, "kpmultiply") {
        Some(14)
    } else if str_eq(key, "kpdivide") {
        Some(15)
    } else {
        None
    }
}

/// The kitty functional key code of a non-text key.
pub fn kitty_code(key: &str) -> (r: Option<u32>)
    ensures
        r == spec_kitty_code(key@),
{
    if str_eq(key, "escape") {
        Some(57344)
    } else if str_eq(key, "enter") || str_eq(key, "return") {
        Some(13)
    } else if str_eq(key, "tab") {
        Some(9)
    } else if str_eq(key, "backspace") {
        Some(127)
    } else if str_eq(key, "space") {
        Some(32)
    } else if str_eq(key, "delete") {
        Some(57356)
    } else if str_eq(key, "insert") {
        Some(57355)
    } else if str_eq(key, "up") {
        Some(57345)
    } else if str_eq(key, "down") {
        Some(57346)
    } else if str_eq(key, "right") {
        Some(57347)
    } else if str_eq(key, "left") {
        Some(57348)
    } else if str_eq(key, "home") {
        Some(57349)
    } else if str_eq(key, "end") {
        Some(57350)
    } else if str_eq(key, "pageup") {
        Some(57353)
    } else if str_eq(key, "pagedown") {
        Some(57354)
    } else {
        match kitty_fn_index(key) {
            Some(i) => Some(57376 + i),
            None => match kitty_kp_index(key) {
                Some(i) => Some(57400 + i),
                None => None,
            },
        }
    }
}

/// `ESC [ <code> ; <mods> [1] u` as a vector.
fn kitty_sequence(code: u32, mods: u8, mode: TermMode) -> (r: Vec<u8>)
    ensures
        forall|m: Modifiers| spec_kitty_mask(m) == mods as nat ==> r@ == #[trigger] kitty_seq(code as nat, m, mode),
{
    let mut out: Vec<u8> = Vec::new();
    out.push(27);
    out.push(91);
    push_decimal(&mut out, code as u64);
    out.push(59);
    push_decimal(&mut out, mods as u64);
    if mode.report_event_types {
        out.push(49);
    }
    out.push(117);
    let ghost ev: Seq<u8> = if mode.report_event_types { seq![49u8] } else { seq![] };
    assert(out@ =~= seq![27u8, 91u8] + decimal(code as nat) + seq![59u8] + decimal(mods as nat) + ev + seq![117u8]);
    out
}

/// Kitty encoding of the parts of a keystroke.
fn kitty_bytes(modifiers: &Modifiers, key: &str, key_char: &Option<String>, mode: TermMode) -> (r:
    Vec<u8>)
    ensures
        r@ == spec_kitty_encode(*modifiers, key@, opt_view(*key_char), mode),
{
    let mods = kitty_modifier_mask(modifiers);
    if let Some(ch) = key_char {
        if utf8_len(ch.as_str()) == 1 {
            let c = single_char(ch.as_str());
            return kitty_sequence(c as u32, mods, mode);
        }
    }
    if utf8_len(key) == 1 {
        let c = single_char(key);
        return kitty_sequence(c as u32, mods, mode);
    }
    match kitty_code(key) {
        Some(code) => kitty_sequence(code, mods, mode),
        None => Vec::new(),
    }
}

/// Encode a keystroke with the kitty keyboard protocol (CSI u):
/// `ESC [ <key> ; <mods> [1] u`, where `key` is the code point of a
/// one-character key or the kitty functional key code.
pub fn kitty_encode(keystroke: &Keystroke, mode: TermMode) -> (r: Vec<u8>)
    ensures
        r@ == spec_kitty_encode(keystroke.modifiers, keystroke.key@, opt_view(keystroke.key_char), mode),
{
    kitty_bytes(&keystroke.modifiers, keystroke.key.as_str(), &keystroke.key_char, mode)
}

/// Control held alone.
fn ctrl_keystroke(key: &str, key_char: &Option<String>) -> (r: Vec<u8>)
    ensures
        r@ == ctrl_bytes(key@, opt_view(*key_char)),
{
    if let Some(ch) = key_char {
        if utf8_len(ch.as_str()) == 1 {
            let c = single_char(ch.as_str());
            let ctrl = char_to_ctrl(c);
            if ctrl.len() > 0 {
                return ctrl;
            }
        }
    }
    if utf8_len(key) == 1 {
        let c = single_char(key);
        let ctrl = char_to_ctrl(c);
        if ctrl.len() > 0 {
            return ctrl;
        }
    }
    if str_eq(key, "backspace") {
        one(0x7f)
    } else if str_eq(key, "delete") {
        let mut out: Vec<u8> = Vec::new();
        out.push(27);
        out.push(91);
        out.push(51);
        out.push(59);
        out.push(53);
        out.push(126);
        assert(out@ =~= seq![27u8, 91u8, 51u8, 59u8, 53u8, 126u8]);
        out
    } else {
        Vec::new()
    }
}

/// The produced text when only shift may be held.
fn plain_keystroke_text(modifiers: &Modifiers, key: &str, key_char: &Option<String>) -> (r: Option<
    Vec<u8>,
>)
    ensures
        r matches Some(v) ==> plain_text(*modifiers, key@, opt_view(*key_char)) == Some(v@),
        r is None ==> plain_text(*modifiers, key@, opt_view(*key_char)) is None,
{
    if modifiers.control || modifiers.alt || modifiers.platform {
        return None;
    }
    if let Some(ch) = key_char {
        if !ch.as_str().is_empty() {
            return Some(str_bytes(ch.as_str()));
        }
    }
    if utf8_len(key) == 1 {
        return Some(str_bytes(key));
    }
    None
}

/// Keystroke encoding without the Alt-prefix rule.
fn keystroke_bytes_no_alt(
    modifiers: &Modifiers,
    key: &str,
    key_char: &Option<String>,
    mode: TermMode,
) -> (r: Vec<u8>)
    ensures
        r@ == key_bytes_no_alt(*modifiers, key@, opt_view(*key_char), mode),
{
    let kitty = mode.disambiguate_esc_codes || mode.report_all_keys_as_esc
        || mode.report_event_types;
    if kitty {
        return kitty_bytes(modifiers, key, key_char, mode);
    }
    let ctrl_alone = modifiers.control && !modifiers.alt && !modifiers.shift
        && !modifiers.platform;
    if str_eq(key, "enter") || str_eq(key, "return") {
        if modifiers.alt {
            let mut out: Vec<u8> = Vec::new();
            out.push(27);
            out.push(13);
            assert(out@ =~= seq![27u8, 13u8]);
            return out;
        }
        if ctrl_alone {
            return one(10);
        }
        return one(13);
    }
    if ctrl_alone {
        let ctrl = ctrl_keystroke(key, key_char);
        if ctrl.len() > 0 {
            return ctrl;
        }
        let k = special_key(key);
        if takes_modifier(k) {
            return special_key_bytes(k, modifiers, mode);
        }
        return Vec::new();
    }
    if let Some(text) = plain_keystroke_text(modifiers, key, key_char) {
        return text;
    }
    let k = special_key(key);
    special_key_bytes(k, modifiers, mode)
}

/// Convert a keystroke to the bytes the terminal expects.
///
/// `mode` selects application cursor keys, application keypad and the
/// kitty keyboard protocol. The result is empty when the keystroke sends
/// nothing.
pub fn keystroke_to_bytes(keystroke: &Keystroke, mode: TermMode) -> (r: Vec<u8>)
    ensures
        r@ == keystroke_spec(*keystroke, mode),
{
    let modifiers = &keystroke.modifiers;
    let key = keystroke.key.as_str();
    let kitty = mode.disambiguate_esc_codes || mode.report_all_keys_as_esc
        || mode.report_event_types;
    let ctrl_alone = modifiers.control && !modifiers.alt && !modifiers.shift
        && !modifiers.platform;
    if !kitty && !(str_eq(key, "enter") || str_eq(key, "return")) && !ctrl_alone && modifiers.alt
        && !modifiers.platform {
        let inner = keystroke_plain(keystroke, mode);
        if inner.len() > 0 {
            let mut out: Vec<u8> = Vec::new();
            out.push(27);
            push_all(&mut out, inner.as_slice());
            assert(out@ =~= seq![27u8] + inner@);
            return out;
        }
    }
    keystroke_bytes_no_alt(modifiers, key, &keystroke.key_char, mode)
}

/// What follows ESC for an Alt combination: the produced text, the key
/// itself, or the keystroke encoded without Alt.
pub fn keystroke_plain(keystroke: &Keystroke, mode: TermMode) -> (r: Vec<u8>)
    ensures
        r@ == alt_inner(keystroke.modifiers, keystroke.key@, opt_view(keystroke.key_char), mode),
{
    if let Some(ch) = &keystroke.key_char {
        if !ch.as_str().is_empty() {
            return str_bytes(ch.as_str());
        }
    }
    if utf8_len(keystroke.key.as_str()) == 1 {
        return str_bytes(keystroke.key.as_str());
    }
    let m = Modifiers { alt: false, ..keystroke.modifiers };
    keystroke_bytes_no_alt(&m, keystroke.key.as_str(), &keystroke.key_char, mode)
}

// ---------------------------------------------------------------------------
// Laws
// ---------------------------------------------------------------------------

/// Under the kitty keyboard protocol every keystroke is encoded as CSI u,
/// whatever its modifiers.
pub proof fn law_kitty_protocol_takes_precedence(
    m: Modifiers,
    key: Seq<char>,
    key_char: Option<Seq<char>>,
    mode: TermMode,
)
    requires
        spec_kitty_active(mode),
    ensures
        spec_keystroke_to_bytes(m, key, key_char, mode) == spec_kitty_encode(m, key, key_char, mode),
{
}

/// Enter sends CR whatever text it produces; Alt prefixes it with ESC and
/// Control alone turns it into LF.
pub proof fn law_enter_is_carriage_return(
    m: Modifiers,
    key: Seq<char>,
    key_char: Option<Seq<char>>,
    mode: TermMode,
)
    requires
        !spec_kitty_active(mode),
        is_enter(key),
    ensures
        spec_keystroke_to_bytes(m, key, key_char, mode) == if m.alt {
            seq![27u8, 13u8]
        } else if ctrl_only(m) {
            seq![10u8]
        } else {
            seq![13u8]
        },
{
}

/// A keystroke that produces text with no modifier but shift sends that
/// text as UTF-8; with Alt (and neither Control alone nor the platform
/// key) the same text follows an ESC.
pub proof fn law_text_and_alt_prefix(
    m: Modifiers,
    key: Seq<char>,
    text: Seq<char>,
    mode: TermMode,
)
    requires
        !spec_kitty_active(mode),
        !is_enter(key),
        text.len() > 0,
        !m.control,
        !m.platform,
    ensures
        m.alt ==> spec_keystroke_to_bytes(m, key, Some(text), mode) == seq![27u8] + utf8(text),
        !m.alt ==> spec_keystroke_to_bytes(m, key, Some(text), mode) == utf8(text),
{
    crate::text::lemma_utf8_nonempty(text);
}

/// Control with a letter sends the letter's code modulo 32, the same for
/// upper and lower case.
pub proof fn law_ctrl_letter(c: char)
    requires
        is_ascii_letter(c),
    ensures
        spec_char_to_ctrl(c) == seq![((c as u32) % 32) as u8],
        1 <= (c as u32) % 32 <= 26,
{
}

/// Every control character lies in 0x00–0x1F or is DEL.
pub proof fn law_ctrl_range(c: char)
    ensures
        spec_char_to_ctrl(c).len() <= 1,
        spec_char_to_ctrl(c).len() == 1 ==> (spec_char_to_ctrl(c)[0] <= 0x1F || spec_char_to_ctrl(c)[0]
            == 0x7F),
{
}

/// The CSI modifier parameter is absent exactly when no modifier is held;
/// otherwise it is `1;` followed by the modifier number, which counts shift
/// 1, control 4 and super 8 over one and leaves Alt to the ESC prefix (so
/// Alt alone gives `1;`).
pub proof fn law_modifier_parameter(m: Modifiers)
    ensures
        (spec_csi_param(m).len() == 0) == !spec_modifier_present(m),
        spec_modifier_present(m) ==> spec_csi_param(m) == seq![49u8, 59u8] + spec_mod_digits(m),
        spec_mod_number(m) == 1 + spec_kitty_mask(m) - (if m.alt { 2int } else { 0int }),
        spec_mod_number(m) < 16,
{
}

/// With Control alone, an arrow, Home, End, editing or function key is
/// encoded with the Control modifier (in application-cursor mode an arrow
/// then uses CSI, not SS3); any other key without a control character
/// sends nothing.
pub proof fn law_ctrl_special_key(key: Seq<char>, key_char: Option<Seq<char>>, m: Modifiers, mode: TermMode)
    requires
        !spec_kitty_active(mode),
        !is_enter(key),
        ctrl_only(m),
        ctrl_bytes(key, key_char).len() == 0,
    ensures
        spec_takes_modifier(spec_special_key(key)) ==> spec_keystroke_to_bytes(m, key, key_char, mode)
            == special_bytes(spec_special_key(key), m, mode),
        !spec_takes_modifier(spec_special_key(key)) ==> spec_keystroke_to_bytes(m, key, key_char, mode)
            == Seq::<u8>::empty(),
        spec_special_key(key) matches SpecialKey::Arrow(l) ==> spec_keystroke_to_bytes(m, key, key_char, mode)
            == seq![27u8, 91u8, 49u8, 59u8, 53u8, l],
{
    assert(spec_mod_number(m) == 5);
    reveal_with_fuel(decimal, 2);
}

/// A key name of more than one character produces no one-byte text.
proof fn lemma_long_name_not_one_byte(key: Seq<char>)
    requires
        key.len() != 1,
    ensures
        !one_byte(key),
{
    if one_byte(key) {
        crate::text::lemma_utf8_single_byte(key);
    }
}

/// An arrow key pressed without produced text, under any modifiers and
/// outside the kitty protocol, sends a sequence that starts with ESC and
/// ends with the arrow's letter `l`.
proof fn lemma_arrow_sequence(m: Modifiers, key: Seq<char>, mode: TermMode, l: u8)
    requires
        !spec_kitty_active(mode),
        !is_enter(key),
        key.len() > 1,
        key != "backspace"@,
        key != "delete"@,
        spec_special_key(key) == SpecialKey::Arrow(l),
    ensures
        spec_keystroke_to_bytes(m, key, None, mode).len() > 0,
        spec_keystroke_to_bytes(m, key, None, mode)[0] == 27u8,
        spec_keystroke_to_bytes(m, key, None, mode).last() == l,
        !spec_modifier_present(m) ==> spec_keystroke_to_bytes(m, key, None, mode) == if mode.app_cursor {
            seq![27u8, 79u8, l]
        } else {
            seq![27u8, 91u8, l]
        },
{
    lemma_long_name_not_one_byte(key);
    assert(ctrl_bytes(key, None).len() == 0);
    let m2 = Modifiers { alt: false, ..m };
    let inner = key_bytes_no_alt(m2, key, None, mode);
    assert(inner == special_bytes(SpecialKey::Arrow(l), m2, mode));
    let full = spec_keystroke_to_bytes(m, key, None, mode);
    if alt_prefix_applies(m, key, mode) && alt_inner(m, key, None, mode).len() > 0 {
        assert(alt_inner(m, key, None, mode) == inner);
        assert(full == seq![27u8] + inner);
        assert(full.last() == inner.last());
    } else {
        assert(full == key_bytes_no_alt(m, key, None, mode));
        assert(full == special_bytes(SpecialKey::Arrow(l), m, mode));
    }
}

/// Each arrow key sends its own xterm direction letter, whatever the
/// modifiers and cursor mode (outside the kitty protocol): up `A`, down
/// `B`, right `C`, left `D`. Without modifiers it is `ESC [ <letter>`, or
/// `ESC O <letter>` in application-cursor mode. So two different arrows
/// never send the same bytes.
pub proof fn law_arrow_keys(m: Modifiers, mode: TermMode)
    requires
        !spec_kitty_active(mode),
    ensures
        spec_keystroke_to_bytes(m, "up"@, None, mode).last() == 65u8,
        spec_keystroke_to_bytes(m, "down"@, None, mode).last() == 66u8,
        spec_keystroke_to_bytes(m, "right"@, None, mode).last() == 67u8,
        spec_keystroke_to_bytes(m, "left"@, None, mode).last() == 68u8,
        !spec_modifier_present(m) && !mode.app_cursor ==> spec_keystroke_to_bytes(m, "down"@, None, mode)
            == seq![27u8, 91u8, 66u8] && spec_keystroke_to_bytes(m, "up"@, None, mode) == seq![27u8, 91u8, 65u8]
            && spec_keystroke_to_bytes(m, "right"@, None, mode) == seq![27u8, 91u8, 67u8]
            && spec_keystroke_to_bytes(m, "left"@, None, mode) == seq![27u8, 91u8, 68u8],
        !spec_modifier_present(m) && mode.app_cursor ==> spec_keystroke_to_bytes(m, "down"@, None, mode)
            == seq![27u8, 79u8, 66u8] && spec_keystroke_to_bytes(m, "up"@, None, mode) == seq![27u8, 79u8, 65u8]
            && spec_keystroke_to_bytes(m, "right"@, None, mode) == seq![27u8, 79u8, 67u8]
            && spec_keystroke_to_bytes(m, "left"@, None, mode) == seq![27u8, 79u8, 68u8],
        forall|a: Seq<char>, b: Seq<char>|
            (a == "up"@ || a == "down"@ || a == "right"@ || a == "left"@) && (b == "up"@ || b == "down"@
                || b == "right"@ || b == "left"@) && a != b ==> #[trigger] spec_keystroke_to_bytes(m, a, None, mode)
                != #[trigger] spec_keystroke_to_bytes(m, b, None, mode),
{
    reveal_strlit("up");
    reveal_strlit("down");
    reveal_strlit("right");
    reveal_strlit("left");
    reveal_strlit("enter");
    reveal_strlit("return");
    reveal_strlit("backspace");
    reveal_strlit("delete");
    reveal_strlit("tab");
    reveal_strlit("escape");
    reveal_strlit("space");
    assert("down"@.len() == 4 && "enter"@.len() == 5 && "return"@.len() == 6);
    assert("up"@.len() == 2 && "left"@.len() == 4 && "right"@.len() == 5);
    assert("backspace"@.len() == 9 && "delete"@.len() == 6);
    assert("right"@[0] == 'r' && "enter"@[0] == 'e');
    assert("right"@ != "enter"@ && "right"@ != "return"@);
    assert("down"@ != "enter"@ && "down"@ != "return"@);
    lemma_arrow_sequence(m, "up"@, mode, 65);
    lemma_arrow_sequence(m, "down"@, mode, 66);
    lemma_arrow_sequence(m, "right"@, mode, 67);
    lemma_arrow_sequence(m, "left"@, mode, 68);
}

/// Without modifiers or produced text, a key whose name is longer than one
/// character sends exactly its special-key sequence.
proof fn lemma_unmodified_special(m: Modifiers, key: Seq<char>, mode: TermMode)
    requires
        !spec_kitty_active(mode),
        !spec_modifier_present(m),
        !is_enter(key),
        key.len() > 1,
    ensures
        spec_keystroke_to_bytes(m, key, None, mode) == special_bytes(spec_special_key(key), m, mode),
{
    lemma_long_name_not_one_byte(key);
}

/// Without modifiers (outside the kitty protocol) the function and
/// editing keys send the xterm sequences: F1–F4 `ESC [ P`..`ESC [ S`,
/// F5–F12 `ESC [ 15 ~`, `17 ~`, `18 ~`, `19 ~`, `20 ~`, `21 ~`, `23 ~`,
/// `24 ~`, Insert `2 ~`, Delete `3 ~`, Page Up `5 ~`, Page Down `6 ~`.
pub proof fn law_function_and_editing_keys(m: Modifiers, mode: TermMode)
    requires
        !spec_kitty_active(mode),
        !spec_modifier_present(m),
    ensures
        spec_keystroke_to_bytes(m, "f1"@, None, mode) == seq![27u8, 91u8, 80u8],
        spec_keystroke_to_bytes(m, "f2"@, None, mode) == seq![27u8, 91u8, 81u8],
        spec_keystroke_to_bytes(m, "f3"@, None, mode) == seq![27u8, 91u8, 82u8],
        spec_keystroke_to_bytes(m, "f4"@, None, mode) == seq![27u8, 91u8, 83u8],
        spec_keystroke_to_bytes(m, "f5"@, None, mode) == seq![27u8, 91u8, 49u8, 53u8, 126u8],
        spec_keystroke_to_bytes(m, "f6"@, None, mode) == seq![27u8, 91u8, 49u8, 55u8, 126u8],
        spec_keystroke_to_bytes(m, "f7"@, None, mode) == seq![27u8, 91u8, 49u8, 56u8, 126u8],
        spec_keystroke_to_bytes(m, "f8"@, None, mode) == seq![27u8, 91u8, 49u8, 57u8, 126u8],
        spec_keystroke_to_bytes(m, "f9"@, None, mode) == seq![27u8, 91u8, 50u8, 48u8, 126u8],
        spec_keystroke_to_bytes(m, "f10"@, None, mode) == seq![27u8, 91u8, 50u8, 49u8, 126u8],
        spec_keystroke_to_bytes(m, "f11"@, None, mode) == seq![27u8, 91u8, 50u8, 51u8, 126u8],
        spec_keystroke_to_bytes(m, "f12"@, None, mode) == seq![27u8, 91u8, 50u8, 52u8, 126u8],
        spec_keystroke_to_bytes(m, "insert"@, None, mode) == seq![27u8, 91u8, 50u8, 126u8],
        spec_keystroke_to_bytes(m, "delete"@, None, mode) == seq![27u8, 91u8, 51u8, 126u8],
        spec_keystroke_to_bytes(m, "pageup"@, None, mode) == seq![27u8, 91u8, 53u8, 126u8],
        spec_keystroke_to_bytes(m, "pagedown"@, None, mode) == seq![27u8, 91u8, 54u8, 126u8],
{
    reveal_strlit("enter");
    reveal_strlit("return");
    reveal_strlit("backspace");
    reveal_strlit("tab");
    reveal_strlit("escape");
    reveal_strlit("space");
    reveal_strlit("up");
    reveal_strlit("down");
    reveal_strlit("right");
    reveal_strlit("left");
    reveal_strlit("home");
    reveal_strlit("end");
    reveal_strlit("pageup");
    reveal_strlit("pagedown");
    reveal_strlit("delete");
    reveal_strlit("insert");
    reveal_strlit("f1");
    reveal_strlit("f2");
    reveal_strlit("f3");
    reveal_strlit("f4");
    reveal_strlit("f5");
    reveal_strlit("f6");
    reveal_strlit("f7");
    reveal_strlit("f8");
    reveal_strlit("f9");
    reveal_strlit("f10");
    reveal_strlit("f11");
    reveal_strlit("f12");
    reveal_with_fuel(decimal, 2);
    lemma_fkeys_named();
    lemma_unmodified_special(m, "f1"@, mode);
    lemma_unmodified_special(m, "f2"@, mode);
    lemma_unmodified_special(m, "f3"@, mode);
    lemma_unmodified_special(m, "f4"@, mode);
    lemma_unmodified_special(m, "f5"@, mode);
    lemma_unmodified_special(m, "f6"@, mode);
    lemma_unmodified_special(m, "f7"@, mode);
    lemma_unmodified_special(m, "f8"@, mode);
    lemma_unmodified_special(m, "f9"@, mode);
    lemma_unmodified_special(m, "f10"@, mode);
    lemma_unmodified_special(m, "f11"@, mode);
    lemma_unmodified_special(m, "f12"@, mode);
    lemma_unmodified_special(m, "insert"@, mode);
    lemma_unmodified_special(m, "delete"@, mode);
    lemma_unmodified_special(m, "pageup"@, mode);
    lemma_unmodified_special(m, "pagedown"@, mode);
    assert(csi_key_bytes(CsiTail::Tilde(15), m) =~= seq![27u8, 91u8, 49u8, 53u8, 126u8]);
    assert(csi_key_bytes(CsiTail::Tilde(17), m) =~= seq![27u8, 91u8, 49u8, 55u8, 126u8]);
    assert(csi_key_bytes(CsiTail::Tilde(18), m) =~= seq![27u8, 91u8, 49u8, 56u8, 126u8]);
    assert(csi_key_bytes(CsiTail::Tilde(19), m) =~= seq![27u8, 91u8, 49u8, 57u8, 126u8]);
    assert(csi_key_bytes(CsiTail::Tilde(20), m) =~= seq![27u8, 91u8, 50u8, 48u8, 126u8]);
    assert(csi_key_bytes(CsiTail::Tilde(21), m) =~= seq![27u8, 91u8, 50u8, 49u8, 126u8]);
    assert(csi_key_bytes(CsiTail::Tilde(23), m) =~= seq![27u8, 91u8, 50u8, 51u8, 126u8]);
    assert(csi_key_bytes(CsiTail::Tilde(24), m) =~= seq![27u8, 91u8, 50u8, 52u8, 126u8]);
    assert(csi_key_bytes(CsiTail::Tilde(2), m) =~= seq![27u8, 91u8, 50u8, 126u8]);
    assert(csi_key_bytes(CsiTail::Tilde(3), m) =~= seq![27u8, 91u8, 51u8, 126u8]);
    assert(csi_key_bytes(CsiTail::Tilde(5), m) =~= seq![27u8, 91u8, 53u8, 126u8]);
    assert(csi_key_bytes(CsiTail::Tilde(6), m) =~= seq![27u8, 91u8, 54u8, 126u8]);
    assert(csi(m, seq![80u8]) =~= seq![27u8, 91u8, 80u8]);
    assert(csi(m, seq![81u8]) =~= seq![27u8, 91u8, 81u8]);
    assert(csi(m, seq![82u8]) =~= seq![27u8, 91u8, 82u8]);
    assert(csi(m, seq![83u8]) =~= seq![27u8, 91u8, 83u8]);
}

/// Which special key the function and editing key names denote.
proof fn lemma_fkeys_named()
    ensures
        spec_special_key("f1"@) == SpecialKey::Csi(CsiTail::Letter(80)),
        spec_special_key("f2"@) == SpecialKey::Csi(CsiTail::Letter(81)),
        spec_special_key("f3"@) == SpecialKey::Csi(CsiTail::Letter(82)),
        spec_special_key("f4"@) == SpecialKey::Csi(CsiTail::Letter(83)),
        spec_special_key("f5"@) == SpecialKey::Csi(CsiTail::Tilde(15)),
        spec_special_key("f6"@) == SpecialKey::Csi(CsiTail::Tilde(17)),
        spec_special_key("f7"@) == SpecialKey::Csi(CsiTail::Tilde(18)),
        spec_special_key("f8"@) == SpecialKey::Csi(CsiTail::Tilde(19)),
        spec_special_key("f9"@) == SpecialKey::Csi(CsiTail::Tilde(20)),
        spec_special_key("f10"@) == SpecialKey::Csi(CsiTail::Tilde(21)),
        spec_special_key("f11"@) == SpecialKey::Csi(CsiTail::Tilde(23)),
        spec_special_key("f12"@) == SpecialKey::Csi(CsiTail::Tilde(24)),
        spec_special_key("insert"@) == SpecialKey::Csi(CsiTail::Tilde(2)),
        spec_special_key("delete"@) == SpecialKey::Csi(CsiTail::Tilde(3)),
        spec_special_key("pageup"@) == SpecialKey::Csi(CsiTail::Tilde(5)),
        spec_special_key("pagedown"@) == SpecialKey::Csi(CsiTail::Tilde(6)),
        !is_enter("f1"@) && !is_enter("f2"@) && !is_enter("f3"@) && !is_enter("f4"@) && !is_enter("f5"@)
            && !is_enter("f6"@) && !is_enter("f7"@) && !is_enter("f8"@) && !is_enter("f9"@) && !is_enter(
            "f10"@,
        ) && !is_enter("f11"@) && !is_enter("f12"@) && !is_enter("insert"@) && !is_enter("delete"@)
            && !is_enter("pageup"@) && !is_enter("pagedown"@),
{
    reveal_strlit("enter");
    reveal_strlit("return");
    reveal_strlit("backspace");
    reveal_strlit("tab");
    reveal_strlit("escape");
    reveal_strlit("space");
    reveal_strlit("up");
    reveal_strlit("down");
    reveal_strlit("right");
    reveal_strlit("left");
    reveal_strlit("home");
    reveal_strlit("end");
    reveal_strlit("pageup");
    reveal_strlit("pagedown");
    reveal_strlit("delete");
    reveal_strlit("insert");
    reveal_strlit("f1");
    reveal_strlit("f2");
    reveal_strlit("f3");
    reveal_strlit("f4");
    reveal_strlit("f5");
    reveal_strlit("f6");
    reveal_strlit("f7");
    reveal_strlit("f8");
    reveal_strlit("f9");
    reveal_strlit("f10");
    reveal_strlit("f11");
    reveal_strlit("f12");
    reveal_strlit("f13");
    reveal_strlit("f14");
    reveal_strlit("f15");
    reveal_strlit("f16");
    reveal_strlit("f17");
    reveal_strlit("f18");
    reveal_strlit("f19");
    reveal_strlit("f20");
    assert("enter"@.len() == 5 && "enter"@[0] == 'e' && "enter"@[1] == 'n' && "enter"@[2] == 't' && "enter"@[3] == 'e' && "enter"@[4] == 'r');
    assert("return"@.len() == 6 && "return"@[0] == 'r' && "return"@[1] == 'e' && "return"@[2] == 't' && "return"@[3] == 'u' && "return"@[4] == 'r' && "return"@[5] == 'n');
    assert("backspace"@.len() == 9 && "backspace"@[0] == 'b' && "backspace"@[1] == 'a' && "backspace"@[2] == 'c' && "backspace"@[3] == 'k' && "backspace"@[4] == 's' && "backspace"@[5] == 'p' && "backspace"@[6] == 'a' && "backspace"@[7] == 'c' && "backspace"@[8] == 'e');
    assert("tab"@.len() == 3 && "tab"@[0] == 't' && "tab"@[1] == 'a' && "tab"@[2] == 'b');
    assert("escape"@.len() == 6 && "escape"@[0] == 'e' && "escape"@[1] == 's' && "escape"@[2] == 'c' && "escape"@[3] == 'a' && "escape"@[4] == 'p' && "escape"@[5] == 'e');
    assert("space"@.len() == 5 && "space"@[0] == 's' && "space"@[1] == 'p' && "space"@[2] == 'a' && "space"@[3] == 'c' && "space"@[4] == 'e');
    assert("up"@.len() == 2 && "up"@[0] == 'u' && "up"@[1] == 'p');
    assert("down"@.len() == 4 && "down"@[0] == 'd' && "down"@[1] == 'o' && "down"@[2] == 'w' && "down"@[3] == 'n');
    assert("right"@.len() == 5 && "right"@[0] == 'r' && "right"@[1] == 'i' && "right"@[2] == 'g' && "right"@[3] == 'h' && "right"@[4] == 't');
    assert("left"@.len() == 4 && "left"@[0] == 'l' && "left"@[1] == 'e' && "left"@[2] == 'f' && "left"@[3] == 't');
    assert("home"@.len() == 4 && "home"@[0] == 'h' && "home"@[1] == 'o' && "home"@[2] == 'm' && "home"@[3] == 'e');
    assert("end"@.len() == 3 && "end"@[0] == 'e' && "end"@[1] == 'n' && "end"@[2] == 'd');
    assert("pageup"@.len() == 6 && "pageup"@[0] == 'p' && "pageup"@[1] == 'a' && "pageup"@[2] == 'g' && "pageup"@[3] == 'e' && "pageup"@[4] == 'u' && "pageup"@[5] == 'p');
    assert("pagedown"@.len() == 8 && "pagedown"@[0] == 'p' && "pagedown"@[1] == 'a' && "pagedown"@[2] == 'g' && "pagedown"@[3] == 'e' && "pagedown"@[4] == 'd' && "pagedown"@[5] == 'o' && "pagedown"@[6] == 'w' && "pagedown"@[7] == 'n');
    assert("delete"@.len() == 6 && "delete"@[0] == 'd' && "delete"@[1] == 'e' && "delete"@[2] == 'l' && "delete"@[3] == 'e' && "delete"@[4] == 't' && "delete"@[5] == 'e');
    assert("insert"@.len() == 6 && "insert"@[0] == 'i' && "insert"@[1] == 'n' && "insert"@[2] == 's' && "insert"@[3] == 'e' && "insert"@[4] == 'r' && "insert"@[5] == 't');
    assert("f1"@.len() == 2 && "f1"@[0] == 'f' && "f1"@[1] == '1');
    assert("f2"@.len() == 2 && "f2"@[0] == 'f' && "f2"@[1] == '2');
    assert("f3"@.len() == 2 && "f3"@[0] == 'f' && "f3"@[1] == '3');
    assert("f4"@.len() == 2 && "f4"@[0] == 'f' && "f4"@[1] == '4');
    assert("f5"@.len() == 2 && "f5"@[0] == 'f' && "f5"@[1] == '5');
    assert("f6"@.len() == 2 && "f6"@[0] == 'f' && "f6"@[1] == '6');
    assert("f7"@.len() == 2 && "f7"@[0] == 'f' && "f7"@[1] == '7');
    assert("f8"@.len() == 2 && "f8"@[0] == 'f' && "f8"@[1] == '8');
    assert("f9"@.len() == 2 && "f9"@[0] == 'f' && "f9"@[1] == '9');
    assert("f10"@.len() == 3 && "f10"@[0] == 'f' && "f10"@[1] == '1' && "f10"@[2] == '0');
    assert("f11"@.len() == 3 && "f11"@[0] == 'f' && "f11"@[1] == '1' && "f11"@[2] == '1');
    assert("f12"@.len() == 3 && "f12"@[0] == 'f' && "f12"@[1] == '1' && "f12"@[2] == '2');
    assert("f13"@.len() == 3 && "f13"@[0] == 'f' && "f13"@[1] == '1' && "f13"@[2] == '3');
    assert("f14"@.len() == 3 && "f14"@[0] == 'f' && "f14"@[1] == '1' && "f14"@[2] == '4');
    assert("f15"@.len() == 3 && "f15"@[0] == 'f' && "f15"@[1] == '1' && "f15"@[2] == '5');
    assert("f16"@.len() == 3 && "f16"@[0] == 'f' && "f16"@[1] == '1' && "f16"@[2] == '6');
    assert("f17"@.len() == 3 && "f17"@[0] == 'f' && "f17"@[1] == '1' && "f17"@[2] == '7');
    assert("f18"@.len() == 3 && "f18"@[0] == 'f' && "f18"@[1] == '1' && "f18"@[2] == '8');
    assert("f19"@.len() == 3 && "f19"@[0] == 'f' && "f19"@[1] == '1' && "f19"@[2] == '9');
    assert("f20"@.len() == 3 && "f20"@[0] == 'f' && "f20"@[1] == '2' && "f20"@[2] == '0');
}

/// The names of the special keys, spelled out.
proof fn lemma_key_names()
    ensures
        "enter"@.len() == 5,
        "return"@.len() == 6,
        "backspace"@.len() == 9,
        "tab"@.len() == 3,
        "escape"@.len() == 6,
        "space"@.len() == 5,
        "up"@.len() == 2,
        "down"@.len() == 4,
        "right"@.len() == 5,
        "left"@.len() == 4,
        "home"@.len() == 4,
        "end"@.len() == 3,
        "pageup"@.len() == 6,
        "pagedown"@.len() == 8,
        "delete"@.len() == 6,
        "insert"@.len() == 6,
        "f1"@.len() == 2,
        "f2"@.len() == 2,
        "f3"@.len() == 2,
        "f4"@.len() == 2,
        "f5"@.len() == 2,
        "f6"@.len() == 2,
        "f7"@.len() == 2,
        "f8"@.len() == 2,
        "f9"@.len() == 2,
        "f10"@.len() == 3,
        "f11"@.len() == 3,
        "f12"@.len() == 3,
        "f13"@.len() == 3,
        "f14"@.len() == 3,
        "f15"@.len() == 3,
        "f16"@.len() == 3,
        "f17"@.len() == 3,
        "f18"@.len() == 3,
        "f19"@.len() == 3,
        "f20"@.len() == 3,
        "kp0"@.len() == 3,
        "kp1"@.len() == 3,
        "kp2"@.len() == 3,
        "kp3"@.len() == 3,
        "kp4"@.len() == 3,
        "kp5"@.len() == 3,
        "kp6"@.len() == 3,
        "kp7"@.len() == 3,
        "kp8"@.len() == 3,
        "kp9"@.len() == 3,
        "kpadd"@.len() == 5,
        "kpsubtract"@.len() == 10,
        "kpmultiply"@.len() == 10,
        "kpdivide"@.len() == 8,
        "kpdecimal"@.len() == 9,
        "kpenter"@.len() == 7,
        "enter"@[0] == 'e' && "enter"@[1] == 'n' && "enter"@[2] == 't' && "enter"@[3] == 'e' && "enter"@[4] == 'r',
        "return"@[0] == 'r' && "return"@[1] == 'e' && "return"@[2] == 't' && "return"@[3] == 'u' && "return"@[4] == 'r' && "return"@[5] == 'n',
        "backspace"@[0] == 'b' && "backspace"@[1] == 'a' && "backspace"@[2] == 'c' && "backspace"@[3] == 'k' && "backspace"@[4] == 's' && "backspace"@[5] == 'p' && "backspace"@[6] == 'a' && "backspace"@[7] == 'c' && "backspace"@[8] == 'e',
        "tab"@[0] == 't' && "tab"@[1] == 'a' && "tab"@[2] == 'b',
        "escape"@[0] == 'e' && "escape"@[1] == 's' && "escape"@[2] == 'c' && "escape"@[3] == 'a' && "escape"@[4] == 'p' && "escape"@[5] == 'e',
        "space"@[0] == 's' && "space"@[1] == 'p' && "space"@[2] == 'a' && "space"@[3] == 'c' && "space"@[4] == 'e',
        "up"@[0] == 'u' && "up"@[1] == 'p',
        "down"@[0] == 'd' && "down"@[1] == 'o' && "down"@[2] == 'w' && "down"@[3] == 'n',
        "right"@[0] == 'r' && "right"@[1] == 'i' && "right"@[2] == 'g' && "right"@[3] == 'h' && "right"@[4] == 't',
        "left"@[0] == 'l' && "left"@[1] == 'e' && "left"@[2] == 'f' && "left"@[3] == 't',
        "home"@[0] == 'h' && "home"@[1] == 'o' && "home"@[2] == 'm' && "home"@[3] == 'e',
        "end"@[0] == 'e' && "end"@[1] == 'n' && "end"@[2] == 'd',
        "pageup"@[0] == 'p' && "pageup"@[1] == 'a' && "pageup"@[2] == 'g' && "pageup"@[3] == 'e' && "pageup"@[4] == 'u' && "pageup"@[5] == 'p',
        "pagedown"@[0] == 'p' && "pagedown"@[1] == 'a' && "pagedown"@[2] == 'g' && "pagedown"@[3] == 'e' && "pagedown"@[4] == 'd' && "pagedown"@[5] == 'o' && "pagedown"@[6] == 'w' && "pagedown"@[7] == 'n',
        "delete"@[0] == 'd' && "delete"@[1] == 'e' && "delete"@[2] == 'l' && "delete"@[3] == 'e' && "delete"@[4] == 't' && "delete"@[5] == 'e',
        "insert"@[0] == 'i' && "insert"@[1] == 'n' && "insert"@[2] == 's' && "insert"@[3] == 'e' && "insert"@[4] == 'r' && "insert"@[5] == 't',
        "f1"@[0] == 'f' && "f1"@[1] == '1',
        "f2"@[0] == 'f' && "f2"@[1] == '2',
        "f3"@[0] == 'f' && "f3"@[1] == '3',
        "f4"@[0] == 'f' && "f4"@[1] == '4',
        "f5"@[0] == 'f' && "f5"@[1] == '5',
        "f6"@[0] == 'f' && "f6"@[1] == '6',
        "f7"@[0] == 'f' && "f7"@[1] == '7',
        "f8"@[0] == 'f' && "f8"@[1] == '8',
        "f9"@[0] == 'f' && "f9"@[1] == '9',
        "f10"@[0] == 'f' && "f10"@[1] == '1' && "f10"@[2] == '0',
        "f11"@[0] == 'f' && "f11"@[1] == '1' && "f11"@[2] == '1',
        "f12"@[0] == 'f' && "f12"@[1] == '1' && "f12"@[2] == '2',
        "f13"@[0] == 'f' && "f13"@[1] == '1' && "f13"@[2] == '3',
        "f14"@[0] == 'f' && "f14"@[1] == '1' && "f14"@[2] == '4',
        "f15"@[0] == 'f' && "f15"@[1] == '1' && "f15"@[2] == '5',
        "f16"@[0] == 'f' && "f16"@[1] == '1' && "f16"@[2] == '6',
        "f17"@[0] == 'f' && "f17"@[1] == '1' && "f17"@[2] == '7',
        "f18"@[0] == 'f' && "f18"@[1] == '1' && "f18"@[2] == '8',
        "f19"@[0] == 'f' && "f19"@[1] == '1' && "f19"@[2] == '9',
        "f20"@[0] == 'f' && "f20"@[1] == '2' && "f20"@[2] == '0',
        "kp0"@[0] == 'k' && "kp0"@[1] == 'p' && "kp0"@[2] == '0',
        "kp1"@[0] == 'k' && "kp1"@[1] == 'p' && "kp1"@[2] == '1',
        "kp2"@[0] == 'k' && "kp2"@[1] == 'p' && "kp2"@[2] == '2',
        "kp3"@[0] == 'k' && "kp3"@[1] == 'p' && "kp3"@[2] == '3',
        "kp4"@[0] == 'k' && "kp4"@[1] == 'p' && "kp4"@[2] == '4',
        "kp5"@[0] == 'k' && "kp5"@[1] == 'p' && "kp5"@[2] == '5',
        "kp6"@[0] == 'k' && "kp6"@[1] == 'p' && "kp6"@[2] == '6',
        "kp7"@[0] == 'k' && "kp7"@[1] == 'p' && "kp7"@[2] == '7',
        "kp8"@[0] == 'k' && "kp8"@[1] == 'p' && "kp8"@[2] == '8',
        "kp9"@[0] == 'k' && "kp9"@[1] == 'p' && "kp9"@[2] == '9',
        "kpadd"@[0] == 'k' && "kpadd"@[1] == 'p' && "kpadd"@[2] == 'a' && "kpadd"@[3] == 'd' && "kpadd"@[4] == 'd',
        "kpsubtract"@[0] == 'k' && "kpsubtract"@[1] == 'p' && "kpsubtract"@[2] == 's' && "kpsubtract"@[3] == 'u' && "kpsubtract"@[4] == 'b' && "kpsubtract"@[5] == 't' && "kpsubtract"@[6] == 'r' && "kpsubtract"@[7] == 'a' && "kpsubtract"@[8] == 'c' && "kpsubtract"@[9] == 't',
        "kpmultiply"@[0] == 'k' && "kpmultiply"@[1] == 'p' && "kpmultiply"@[2] == 'm' && "kpmultiply"@[3] == 'u' && "kpmultiply"@[4] == 'l' && "kpmultiply"@[5] == 't' && "kpmultiply"@[6] == 'i' && "kpmultiply"@[7] == 'p' && "kpmultiply"@[8] == 'l' && "kpmultiply"@[9] == 'y',
        "kpdivide"@[0] == 'k' && "kpdivide"@[1] == 'p' && "kpdivide"@[2] == 'd' && "kpdivide"@[3] == 'i' && "kpdivide"@[4] == 'v' && "kpdivide"@[5] == 'i' && "kpdivide"@[6] == 'd' && "kpdivide"@[7] == 'e',
        "kpdecimal"@[0] == 'k' && "kpdecimal"@[1] == 'p' && "kpdecimal"@[2] == 'd' && "kpdecimal"@[3] == 'e' && "kpdecimal"@[4] == 'c' && "kpdecimal"@[5] == 'i' && "kpdecimal"@[6] == 'm' && "kpdecimal"@[7] == 'a' && "kpdecimal"@[8] == 'l',
        "kpenter"@[0] == 'k' && "kpenter"@[1] == 'p' && "kpenter"@[2] == 'e' && "kpenter"@[3] == 'n' && "kpenter"@[4] == 't' && "kpenter"@[5] == 'e' && "kpenter"@[6] == 'r',
{
    reveal_strlit("enter");
    reveal_strlit("return");
    reveal_strlit("backspace");
    reveal_strlit("tab");
    reveal_strlit("escape");
    reveal_strlit("space");
    reveal_strlit("up");
    reveal_strlit("down");
    reveal_strlit("right");
    reveal_strlit("left");
    reveal_strlit("home");
    reveal_strlit("end");
    reveal_strlit("pageup");
    reveal_strlit("pagedown");
    reveal_strlit("delete");
    reveal_strlit("insert");
    reveal_strlit("f1");
    reveal_strlit("f2");
    reveal_strlit("f3");
    reveal_strlit("f4");
    reveal_strlit("f5");
    reveal_strlit("f6");
    reveal_strlit("f7");
    reveal_strlit("f8");
    reveal_strlit("f9");
    reveal_strlit("f10");
    reveal_strlit("f11");
    reveal_strlit("f12");
    reveal_strlit("f13");
    reveal_strlit("f14");
    reveal_strlit("f15");
    reveal_strlit("f16");
    reveal_strlit("f17");
    reveal_strlit("f18");
    reveal_strlit("f19");
    reveal_strlit("f20");
    reveal_strlit("kp0");
    reveal_strlit("kp1");
    reveal_strlit("kp2");
    reveal_strlit("kp3");
    reveal_strlit("kp4");
    reveal_strlit("kp5");
    reveal_strlit("kp6");
    reveal_strlit("kp7");
    reveal_strlit("kp8");
    reveal_strlit("kp9");
    reveal_strlit("kpadd");
    reveal_strlit("kpsubtract");
    reveal_strlit("kpmultiply");
    reveal_strlit("kpdivide");
    reveal_strlit("kpdecimal");
    reveal_strlit("kpenter");
    assert("enter"@.len() == 5 && "enter"@[0] == 'e' && "enter"@[1] == 'n' && "enter"@[2] == 't' && "enter"@[3] == 'e' && "enter"@[4] == 'r');
    assert("return"@.len() == 6 && "return"@[0] == 'r' && "return"@[1] == 'e' && "return"@[2] == 't' && "return"@[3] == 'u' && "return"@[4] == 'r' && "return"@[5] == 'n');
    assert("backspace"@.len() == 9 && "backspace"@[0] == 'b' && "backspace"@[1] == 'a' && "backspace"@[2] == 'c' && "backspace"@[3] == 'k' && "backspace"@[4] == 's' && "backspace"@[5] == 'p' && "backspace"@[6] == 'a' && "backspace"@[7] == 'c' && "backspace"@[8] == 'e');
    assert("tab"@.len() == 3 && "tab"@[0] == 't' && "tab"@[1] == 'a' && "tab"@[2] == 'b');
    assert("escape"@.len() == 6 && "escape"@[0] == 'e' && "escape"@[1] == 's' && "escape"@[2] == 'c' && "escape"@[3] == 'a' && "escape"@[4] == 'p' && "escape"@[5] == 'e');
    assert("space"@.len() == 5 && "space"@[0] == 's' && "space"@[1] == 'p' && "space"@[2] == 'a' && "space"@[3] == 'c' && "space"@[4] == 'e');
    assert("up"@.len() == 2 && "up"@[0] == 'u' && "up"@[1] == 'p');
    assert("down"@.len() == 4 && "down"@[0] == 'd' && "down"@[1] == 'o' && "down"@[2] == 'w' && "down"@[3] == 'n');
    assert("right"@.len() == 5 && "right"@[0] == 'r' && "right"@[1] == 'i' && "right"@[2] == 'g' && "right"@[3] == 'h' && "right"@[4] == 't');
    assert("left"@.len() == 4 && "left"@[0] == 'l' && "left"@[1] == 'e' && "left"@[2] == 'f' && "left"@[3] == 't');
    assert("home"@.len() == 4 && "home"@[0] == 'h' && "home"@[1] == 'o' && "home"@[2] == 'm' && "home"@[3] == 'e');
    assert("end"@.len() == 3 && "end"@[0] == 'e' && "end"@[1] == 'n' && "end"@[2] == 'd');
    assert("pageup"@.len() == 6 && "pageup"@[0] == 'p' && "pageup"@[1] == 'a' && "pageup"@[2] == 'g' && "pageup"@[3] == 'e' && "pageup"@[4] == 'u' && "pageup"@[5] == 'p');
    assert("pagedown"@.len() == 8 && "pagedown"@[0] == 'p' && "pagedown"@[1] == 'a' && "pagedown"@[2] == 'g' && "pagedown"@[3] == 'e' && "pagedown"@[4] == 'd' && "pagedown"@[5] == 'o' && "pagedown"@[6] == 'w' && "pagedown"@[7] == 'n');
    assert("delete"@.len() == 6 && "delete"@[0] == 'd' && "delete"@[1] == 'e' && "delete"@[2] == 'l' && "delete"@[3] == 'e' && "delete"@[4] == 't' && "delete"@[5] == 'e');
    assert("insert"@.len() == 6 && "insert"@[0] == 'i' && "insert"@[1] == 'n' && "insert"@[2] == 's' && "insert"@[3] == 'e' && "insert"@[4] == 'r' && "insert"@[5] == 't');
    assert("f1"@.len() == 2 && "f1"@[0] == 'f' && "f1"@[1] == '1');
    assert("f2"@.len() == 2 && "f2"@[0] == 'f' && "f2"@[1] == '2');
    assert("f3"@.len() == 2 && "f3"@[0] == 'f' && "f3"@[1] == '3');
    assert("f4"@.len() == 2 && "f4"@[0] == 'f' && "f4"@[1] == '4');
    assert("f5"@.len() == 2 && "f5"@[0] == 'f' && "f5"@[1] == '5');
    assert("f6"@.len() == 2 && "f6"@[0] == 'f' && "f6"@[1] == '6');
    assert("f7"@.len() == 2 && "f7"@[0] == 'f' && "f7"@[1] == '7');
    assert("f8"@.len() == 2 && "f8"@[0] == 'f' && "f8"@[1] == '8');
    assert("f9"@.len() == 2 && "f9"@[0] == 'f' && "f9"@[1] == '9');
    assert("f10"@.len() == 3 && "f10"@[0] == 'f' && "f10"@[1] == '1' && "f10"@[2] == '0');
    assert("f11"@.len() == 3 && "f11"@[0] == 'f' && "f11"@[1] == '1' && "f11"@[2] == '1');
    assert("f12"@.len() == 3 && "f12"@[0] == 'f' && "f12"@[1] == '1' && "f12"@[2] == '2');
    assert("f13"@.len() == 3 && "f13"@[0] == 'f' && "f13"@[1] == '1' && "f13"@[2] == '3');
    assert("f14"@.len() == 3 && "f14"@[0] == 'f' && "f14"@[1] == '1' && "f14"@[2] == '4');
    assert("f15"@.len() == 3 && "f15"@[0] == 'f' && "f15"@[1] == '1' && "f15"@[2] == '5');
    assert("f16"@.len() == 3 && "f16"@[0] == 'f' && "f16"@[1] == '1' && "f16"@[2] == '6');
    assert("f17"@.len() == 3 && "f17"@[0] == 'f' && "f17"@[1] == '1' && "f17"@[2] == '7');
    assert("f18"@.len() == 3 && "f18"@[0] == 'f' && "f18"@[1] == '1' && "f18"@[2] == '8');
    assert("f19"@.len() == 3 && "f19"@[0] == 'f' && "f19"@[1] == '1' && "f19"@[2] == '9');
    assert("f20"@.len() == 3 && "f20"@[0] == 'f' && "f20"@[1] == '2' && "f20"@[2] == '0');
    assert("kp0"@.len() == 3 && "kp0"@[0] == 'k' && "kp0"@[1] == 'p' && "kp0"@[2] == '0');
    assert("kp1"@.len() == 3 && "kp1"@[0] == 'k' && "kp1"@[1] == 'p' && "kp1"@[2] == '1');
    assert("kp2"@.len() == 3 && "kp2"@[0] == 'k' && "kp2"@[1] == 'p' && "kp2"@[2] == '2');
    assert("kp3"@.len() == 3 && "kp3"@[0] == 'k' && "kp3"@[1] == 'p' && "kp3"@[2] == '3');
    assert("kp4"@.len() == 3 && "kp4"@[0] == 'k' && "kp4"@[1] == 'p' && "kp4"@[2] == '4');
    assert("kp5"@.len() == 3 && "kp5"@[0] == 'k' && "kp5"@[1] == 'p' && "kp5"@[2] == '5');
    assert("kp6"@.len() == 3 && "kp6"@[0] == 'k' && "kp6"@[1] == 'p' && "kp6"@[2] == '6');
    assert("kp7"@.len() == 3 && "kp7"@[0] == 'k' && "kp7"@[1] == 'p' && "kp7"@[2] == '7');
    assert("kp8"@.len() == 3 && "kp8"@[0] == 'k' && "kp8"@[1] == 'p' && "kp8"@[2] == '8');
    assert("kp9"@.len() == 3 && "kp9"@[0] == 'k' && "kp9"@[1] == 'p' && "kp9"@[2] == '9');
    assert("kpadd"@.len() == 5 && "kpadd"@[0] == 'k' && "kpadd"@[1] == 'p' && "kpadd"@[2] == 'a' && "kpadd"@[3] == 'd' && "kpadd"@[4] == 'd');
    assert("kpsubtract"@.len() == 10 && "kpsubtract"@[0] == 'k' && "kpsubtract"@[1] == 'p' && "kpsubtract"@[2] == 's' && "kpsubtract"@[3] == 'u' && "kpsubtract"@[4] == 'b' && "kpsubtract"@[5] == 't' && "kpsubtract"@[6] == 'r' && "kpsubtract"@[7] == 'a' && "kpsubtract"@[8] == 'c' && "kpsubtract"@[9] == 't');
    assert("kpmultiply"@.len() == 10 && "kpmultiply"@[0] == 'k' && "kpmultiply"@[1] == 'p' && "kpmultiply"@[2] == 'm' && "kpmultiply"@[3] == 'u' && "kpmultiply"@[4] == 'l' && "kpmultiply"@[5] == 't' && "kpmultiply"@[6] == 'i' && "kpmultiply"@[7] == 'p' && "kpmultiply"@[8] == 'l' && "kpmultiply"@[9] == 'y');
    assert("kpdivide"@.len() == 8 && "kpdivide"@[0] == 'k' && "kpdivide"@[1] == 'p' && "kpdivide"@[2] == 'd' && "kpdivide"@[3] == 'i' && "kpdivide"@[4] == 'v' && "kpdivide"@[5] == 'i' && "kpdivide"@[6] == 'd' && "kpdivide"@[7] == 'e');
    assert("kpdecimal"@.len() == 9 && "kpdecimal"@[0] == 'k' && "kpdecimal"@[1] == 'p' && "kpdecimal"@[2] == 'd' && "kpdecimal"@[3] == 'e' && "kpdecimal"@[4] == 'c' && "kpdecimal"@[5] == 'i' && "kpdecimal"@[6] == 'm' && "kpdecimal"@[7] == 'a' && "kpdecimal"@[8] == 'l');
    assert("kpenter"@.len() == 7 && "kpenter"@[0] == 'k' && "kpenter"@[1] == 'p' && "kpenter"@[2] == 'e' && "kpenter"@[3] == 'n' && "kpenter"@[4] == 't' && "kpenter"@[5] == 'e' && "kpenter"@[6] == 'r');
}

/// Without modifiers (outside the kitty protocol) the keypad sends its
/// digit or operator (Enter: CR), and in application-keypad mode
/// `ESC O` followed by `p`..`y` for 0–9, `k` add, `m` subtract,
/// `j` multiply, `o` divide, `n` decimal, `M` enter.
pub proof fn law_keypad_keys(m: Modifiers, mode: TermMode)
    requires
        !spec_kitty_active(mode),
        !spec_modifier_present(m),
    ensures
        spec_keystroke_to_bytes(m, "kp0"@, None, mode) == if mode.app_keypad {
            seq![27u8, 79u8, 112u8]
        } else {
            seq![48u8]
        },
        spec_keystroke_to_bytes(m, "kp1"@, None, mode) == if mode.app_keypad {
            seq![27u8, 79u8, 113u8]
        } else {
            seq![49u8]
        },
        spec_keystroke_to_bytes(m, "kp2"@, None, mode) == if mode.app_keypad {
            seq![27u8, 79u8, 114u8]
        } else {
            seq![50u8]
        },
        spec_keystroke_to_bytes(m, "kp3"@, None, mode) == if mode.app_keypad {
            seq![27u8, 79u8, 115u8]
        } else {
            seq![51u8]
        },
        spec_keystroke_to_bytes(m, "kp4"@, None, mode) == if mode.app_keypad {
            seq![27u8, 79u8, 116u8]
        } else {
            seq![52u8]
        },
        spec_keystroke_to_bytes(m, "kp5"@, None, mode) == if mode.app_keypad {
            seq![27u8, 79u8, 117u8]
        } else {
            seq![53u8]
        },
        spec_keystroke_to_bytes(m, "kp6"@, None, mode) == if mode.app_keypad {
            seq![27u8, 79u8, 118u8]
        } else {
            seq![54u8]
        },
        spec_keystroke_to_bytes(m, "kp7"@, None, mode) == if mode.app_keypad {
            seq![27u8, 79u8, 119u8]
        } else {
            seq![55u8]
        },
        spec_keystroke_to_bytes(m, "kp8"@, None, mode) == if mode.app_keypad {
            seq![27u8, 79u8, 120u8]
        } else {
            seq![56u8]
        },
        spec_keystroke_to_bytes(m, "kp9"@, None, mode) == if mode.app_keypad {
            seq![27u8, 79u8, 121u8]
        } else {
            seq![57u8]
        },
        spec_keystroke_to_bytes(m, "kpadd"@, None, mode) == if mode.app_keypad {
            seq![27u8, 79u8, 107u8]
        } else {
            seq![43u8]
        },
        spec_keystroke_to_bytes(m, "kpsubtract"@, None, mode) == if mode.app_keypad {
            seq![27u8, 79u8, 109u8]
        } else {
            seq![45u8]
        },
        spec_keystroke_to_bytes(m, "kpmultiply"@, None, mode) == if mode.app_keypad {
            seq![27u8, 79u8, 106u8]
        } else {
            seq![42u8]
        },
        spec_keystroke_to_bytes(m, "kpdivide"@, None, mode) == if mode.app_keypad {
            seq![27u8, 79u8, 111u8]
        } else {
            seq![47u8]
        },
        spec_keystroke_to_bytes(m, "kpdecimal"@, None, mode) == if mode.app_keypad {
            seq![27u8, 79u8, 110u8]
        } else {
            seq![46u8]
        },
        spec_keystroke_to_bytes(m, "kpenter"@, None, mode) == if mode.app_keypad {
            seq![27u8, 79u8, 77u8]
        } else {
            seq![13u8]
        },
{
    lemma_key_names();
    lemma_long_name_not_one_byte("kp0"@);
    lemma_unmodified_special(m, "kp0"@, mode);
    lemma_long_name_not_one_byte("kp1"@);
    lemma_unmodified_special(m, "kp1"@, mode);
    lemma_long_name_not_one_byte("kp2"@);
    lemma_unmodified_special(m, "kp2"@, mode);
    lemma_long_name_not_one_byte("kp3"@);
    lemma_unmodified_special(m, "kp3"@, mode);
    lemma_long_name_not_one_byte("kp4"@);
    lemma_unmodified_special(m, "kp4"@, mode);
    lemma_long_name_not_one_byte("kp5"@);
    lemma_unmodified_special(m, "kp5"@, mode);
    lemma_long_name_not_one_byte("kp6"@);
    lemma_unmodified_special(m, "kp6"@, mode);
    lemma_long_name_not_one_byte("kp7"@);
    lemma_unmodified_special(m, "kp7"@, mode);
    lemma_long_name_not_one_byte("kp8"@);
    lemma_unmodified_special(m, "kp8"@, mode);
    lemma_long_name_not_one_byte("kp9"@);
    lemma_unmodified_special(m, "kp9"@, mode);
    lemma_long_name_not_one_byte("kpadd"@);
    lemma_unmodified_special(m, "kpadd"@, mode);
    lemma_long_name_not_one_byte("kpsubtract"@);
    lemma_unmodified_special(m, "kpsubtract"@, mode);
    lemma_long_name_not_one_byte("kpmultiply"@);
    lemma_unmodified_special(m, "kpmultiply"@, mode);
    lemma_long_name_not_one_byte("kpdivide"@);
    lemma_unmodified_special(m, "kpdivide"@, mode);
    lemma_long_name_not_one_byte("kpdecimal"@);
    lemma_unmodified_special(m, "kpdecimal"@, mode);
    lemma_long_name_not_one_byte("kpenter"@);
    lemma_unmodified_special(m, "kpenter"@, mode);
}

/// Under the kitty protocol the non-text keys are sent with their kitty
/// functional codes: Escape 57344, arrows up, down, right, left 57345–57348,
/// Home 57349, End 57350, Page Up 57353, Page Down 57354, Insert 57355,
/// Delete 57356, F1 57376 up to F12 57387, Tab 9, Backspace 127.
pub proof fn law_kitty_key_codes(m: Modifiers, mode: TermMode)
    requires
        spec_kitty_active(mode),
    ensures
        spec_keystroke_to_bytes(m, "up"@, None, mode) == kitty_seq(57345, m, mode),
        spec_keystroke_to_bytes(m, "down"@, None, mode) == kitty_seq(57346, m, mode),
        spec_keystroke_to_bytes(m, "right"@, None, mode) == kitty_seq(57347, m, mode),
        spec_keystroke_to_bytes(m, "left"@, None, mode) == kitty_seq(57348, m, mode),
        spec_keystroke_to_bytes(m, "escape"@, None, mode) == kitty_seq(57344, m, mode),
        spec_keystroke_to_bytes(m, "tab"@, None, mode) == kitty_seq(9, m, mode),
        spec_keystroke_to_bytes(m, "backspace"@, None, mode) == kitty_seq(127, m, mode),
        spec_keystroke_to_bytes(m, "home"@, None, mode) == kitty_seq(57349, m, mode),
        spec_keystroke_to_bytes(m, "end"@, None, mode) == kitty_seq(57350, m, mode),
        spec_keystroke_to_bytes(m, "pageup"@, None, mode) == kitty_seq(57353, m, mode),
        spec_keystroke_to_bytes(m, "pagedown"@, None, mode) == kitty_seq(57354, m, mode),
        spec_keystroke_to_bytes(m, "insert"@, None, mode) == kitty_seq(57355, m, mode),
        spec_keystroke_to_bytes(m, "delete"@, None, mode) == kitty_seq(57356, m, mode),
        spec_keystroke_to_bytes(m, "f1"@, None, mode) == kitty_seq(57376, m, mode),
        spec_keystroke_to_bytes(m, "f12"@, None, mode) == kitty_seq(57387, m, mode),
{
    lemma_key_names();
    lemma_long_name_not_one_byte("up"@);
    lemma_long_name_not_one_byte("down"@);
    lemma_long_name_not_one_byte("right"@);
    lemma_long_name_not_one_byte("left"@);
    lemma_long_name_not_one_byte("escape"@);
    lemma_long_name_not_one_byte("tab"@);
    lemma_long_name_not_one_byte("backspace"@);
    lemma_long_name_not_one_byte("home"@);
    lemma_long_name_not_one_byte("end"@);
    lemma_long_name_not_one_byte("pageup"@);
    lemma_long_name_not_one_byte("pagedown"@);
    lemma_long_name_not_one_byte("insert"@);
    lemma_long_name_not_one_byte("delete"@);
    lemma_long_name_not_one_byte("f1"@);
    lemma_long_name_not_one_byte("f12"@);
}

/// Control with a digit or punctuation gives the xterm aliases: `2`, `@`
/// and space give NUL; `3` and `[` ESC; `4` and `\\` FS (0x1C); `5` and `]`
/// GS (0x1D); `6` and `^` RS (0x1E); `7`, `_` and `/` US (0x1F); `8` DEL;
/// other digits give nothing.
pub proof fn law_ctrl_aliases(c: char)
    ensures
        (c == '2' || c == '@' || c == ' ') ==> spec_char_to_ctrl(c) == seq![0x00u8],
        (c == '3' || c == '[') ==> spec_char_to_ctrl(c) == seq![0x1bu8],
        (c == '4' || c == '\\') ==> spec_char_to_ctrl(c) == seq![0x1cu8],
        (c == '5' || c == ']') ==> spec_char_to_ctrl(c) == seq![0x1du8],
        (c == '6' || c == '^') ==> spec_char_to_ctrl(c) == seq![0x1eu8],
        (c == '7' || c == '_' || c == '/') ==> spec_char_to_ctrl(c) == seq![0x1fu8],
        c == '8' ==> spec_char_to_ctrl(c) == seq![0x7fu8],
        (c == '0' || c == '1' || c == '9') ==> spec_char_to_ctrl(c).len() == 0,
{
}

} // verus!
