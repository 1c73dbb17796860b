use gpui_term::keys::{
    char_to_ctrl, keystroke_to_bytes, kitty_encode, kitty_modifier_mask, modifier_csi_param,
    Keystroke, Modifiers,
};
use gpui_term::mode::TermMode;

fn mods(control: bool, alt: bool, shift: bool, platform: bool) -> Modifiers {
    Modifiers { control, alt, shift, platform, function: false }
}

fn ks(m: Modifiers, key: &str, key_char: Option<&str>) -> Keystroke {
    Keystroke { modifiers: m, key: key.to_string(), key_char: key_char.map(|s| s.to_string()) }
}

fn plain() -> Modifiers {
    Modifiers::none()
}

#[test]
fn printable_character() {
    let m = TermMode::empty();
    assert_eq!(keystroke_to_bytes(&ks(plain(), "a", Some("a")), m), b"a".to_vec());
    assert_eq!(keystroke_to_bytes(&ks(mods(false, false, true, false), "a", Some("A")), m), b"A".to_vec());
    // Multi-byte text is sent as UTF-8.
    assert_eq!(keystroke_to_bytes(&ks(plain(), "e", Some("é")), m), "é".as_bytes().to_vec());
}

#[test]
fn enter_variants() {
    let m = TermMode::empty();
    assert_eq!(keystroke_to_bytes(&ks(plain(), "enter", Some("\n")), m), b"\r".to_vec());
    assert_eq!(keystroke_to_bytes(&ks(mods(false, true, false, false), "enter", None), m), b"\x1b\r".to_vec());
    assert_eq!(keystroke_to_bytes(&ks(mods(true, false, false, false), "enter", None), m), b"\n".to_vec());
    assert_eq!(keystroke_to_bytes(&ks(plain(), "return", None), m), b"\r".to_vec());
}

#[test]
fn control_characters() {
    let m = TermMode::empty();
    let ctrl = mods(true, false, false, false);
    assert_eq!(keystroke_to_bytes(&ks(ctrl, "c", None), m), vec![3]);
    assert_eq!(keystroke_to_bytes(&ks(ctrl, "C", None), m), vec![3]);
    assert_eq!(keystroke_to_bytes(&ks(ctrl, "2", None), m), vec![0]);
    assert_eq!(keystroke_to_bytes(&ks(ctrl, "8", None), m), vec![0x7f]);
    assert_eq!(keystroke_to_bytes(&ks(ctrl, "[", None), m), vec![0x1b]);
    assert_eq!(keystroke_to_bytes(&ks(ctrl, "backspace", None), m), vec![0x7f]);
    assert_eq!(keystroke_to_bytes(&ks(ctrl, "delete", None), m), b"\x1b[3;5~".to_vec());
    assert_eq!(keystroke_to_bytes(&ks(ctrl, "f1", None), m), b"\x1b[1;5P".to_vec());
    assert_eq!(keystroke_to_bytes(&ks(ctrl, "1", None), m), Vec::<u8>::new());
    assert_eq!(keystroke_to_bytes(&ks(ctrl, "nokey", None), m), Vec::<u8>::new());
}

#[test]
fn char_to_ctrl_table() {
    assert_eq!(char_to_ctrl('a'), vec![1]);
    assert_eq!(char_to_ctrl('Z'), vec![26]);
    assert_eq!(char_to_ctrl('@'), vec![0]);
    assert_eq!(char_to_ctrl(' '), vec![0]);
    assert_eq!(char_to_ctrl('3'), vec![0x1b]);
    assert_eq!(char_to_ctrl('\\'), vec![0x1c]);
    assert_eq!(char_to_ctrl(']'), vec![0x1d]);
    assert_eq!(char_to_ctrl('^'), vec![0x1e]);
    assert_eq!(char_to_ctrl('/'), vec![0x1f]);
    assert!(char_to_ctrl('1').is_empty());
}

#[test]
fn alt_prefix() {
    let m = TermMode::empty();
    let alt = mods(false, true, false, false);
    assert_eq!(keystroke_to_bytes(&ks(alt, "a", Some("a")), m), b"\x1ba".to_vec());
    assert_eq!(keystroke_to_bytes(&ks(alt, "a", None), m), b"\x1ba".to_vec());
    // Alt+special key: ESC and the key without Alt.
    assert_eq!(keystroke_to_bytes(&ks(alt, "backspace", None), m), b"\x1b\x7f".to_vec());
    // Alt+Ctrl+backspace: the key as Ctrl alone, prefixed.
    assert_eq!(keystroke_to_bytes(&ks(mods(true, true, false, false), "backspace", None), m), b"\x1b\x7f".to_vec());
    // Alt+arrow keeps no Alt parameter in the inner sequence.
    assert_eq!(keystroke_to_bytes(&ks(alt, "up", None), m), b"\x1b\x1b[A".to_vec());
}

#[test]
fn arrows_and_app_cursor() {
    let normal = TermMode::empty();
    let app = TermMode { app_cursor: true, ..TermMode::empty() };
    assert_eq!(keystroke_to_bytes(&ks(plain(), "up", None), normal), b"\x1b[A".to_vec());
    assert_eq!(keystroke_to_bytes(&ks(plain(), "up", None), app), b"\x1bOA".to_vec());
    assert_eq!(keystroke_to_bytes(&ks(plain(), "left", None), app), b"\x1bOD".to_vec());
    assert_eq!(keystroke_to_bytes(&ks(mods(false, false, true, false), "right", None), app), b"\x1b[1;2C".to_vec());
    assert_eq!(keystroke_to_bytes(&ks(plain(), "home", None), app), b"\x1bOH".to_vec());
    assert_eq!(keystroke_to_bytes(&ks(plain(), "end", None), normal), b"\x1b[F".to_vec());
    assert_eq!(keystroke_to_bytes(&ks(mods(true, false, true, false), "home", None), normal), b"\x1b[1;6H".to_vec());
}

#[test]
fn editing_and_function_keys() {
    let m = TermMode::empty();
    assert_eq!(keystroke_to_bytes(&ks(plain(), "pageup", None), m), b"\x1b[5~".to_vec());
    assert_eq!(keystroke_to_bytes(&ks(plain(), "insert", None), m), b"\x1b[2~".to_vec());
    assert_eq!(keystroke_to_bytes(&ks(plain(), "f1", None), m), b"\x1b[P".to_vec());
    assert_eq!(keystroke_to_bytes(&ks(plain(), "f12", None), m), b"\x1b[24~".to_vec());
    assert_eq!(keystroke_to_bytes(&ks(plain(), "f20", None), m), b"\x1b[34~".to_vec());
    // xterm puts the modifier after the key number of a `~` key.
    assert_eq!(keystroke_to_bytes(&ks(mods(false, false, true, false), "f5", None), m), b"\x1b[15;2~".to_vec());
    assert_eq!(keystroke_to_bytes(&ks(mods(false, false, true, true), "pagedown", None), m), b"\x1b[6;10~".to_vec());
    assert_eq!(keystroke_to_bytes(&ks(plain(), "tab", None), m), b"\t".to_vec());
    assert_eq!(keystroke_to_bytes(&ks(mods(false, false, true, false), "tab", None), m), b"\x1b[Z".to_vec());
    assert_eq!(keystroke_to_bytes(&ks(plain(), "escape", None), m), b"\x1b".to_vec());
    assert_eq!(keystroke_to_bytes(&ks(plain(), "space", None), m), b" ".to_vec());
    assert_eq!(keystroke_to_bytes(&ks(plain(), "unknownkey", None), m), Vec::<u8>::new());
}

#[test]
fn numpad_modes() {
    let normal = TermMode::empty();
    let app = TermMode { app_keypad: true, ..TermMode::empty() };
    assert_eq!(keystroke_to_bytes(&ks(plain(), "kp5", None), normal), b"5".to_vec());
    assert_eq!(keystroke_to_bytes(&ks(plain(), "kp5", None), app), b"\x1bOu".to_vec());
    assert_eq!(keystroke_to_bytes(&ks(plain(), "kpenter", None), normal), b"\r".to_vec());
    assert_eq!(keystroke_to_bytes(&ks(plain(), "kpenter", None), app), b"\x1bOM".to_vec());
    assert_eq!(keystroke_to_bytes(&ks(plain(), "kpadd", None), app), b"\x1bOk".to_vec());
}

#[test]
fn kitty_protocol() {
    let m = TermMode { disambiguate_esc_codes: true, ..TermMode::empty() };
    let ctrl = mods(true, false, false, false);
    assert_eq!(keystroke_to_bytes(&ks(ctrl, "a", Some("a")), m), b"\x1b[97;4u".to_vec());
    assert_eq!(keystroke_to_bytes(&ks(plain(), "escape", None), m), b"\x1b[57344;0u".to_vec());
    assert_eq!(keystroke_to_bytes(&ks(plain(), "enter", None), m), b"\x1b[13;0u".to_vec());
    assert_eq!(keystroke_to_bytes(&ks(plain(), "f20", None), m), b"\x1b[57395;0u".to_vec());
    assert_eq!(keystroke_to_bytes(&ks(plain(), "kpdivide", None), m), b"\x1b[57415;0u".to_vec());
    let events = TermMode { report_event_types: true, ..TermMode::empty() };
    assert_eq!(kitty_encode(&ks(mods(true, true, true, true), "up", None), events), b"\x1b[57345;151u".to_vec());
    assert_eq!(kitty_encode(&ks(plain(), "nokey", None), events), Vec::<u8>::new());
}

#[test]
fn modifier_parameters() {
    assert_eq!(kitty_modifier_mask(&mods(true, true, true, true)), 15);
    assert_eq!(kitty_modifier_mask(&mods(false, true, false, false)), 2);
    assert_eq!(modifier_csi_param(&plain()), Vec::<u8>::new());
    // Alt is sent as an ESC prefix and adds nothing to the number.
    assert_eq!(modifier_csi_param(&mods(false, true, false, false)), b"1;".to_vec());
    assert_eq!(modifier_csi_param(&mods(false, true, true, false)), b"1;2".to_vec());
    assert_eq!(modifier_csi_param(&mods(true, false, false, false)), b"1;5".to_vec());
    assert_eq!(modifier_csi_param(&mods(true, true, true, true)), b"1;14".to_vec());
}

#[test]
fn ctrl_with_special_keys() {
    let normal = TermMode::empty();
    let app = TermMode { app_cursor: true, ..TermMode::empty() };
    let ctrl = mods(true, false, false, false);
    // Application cursor mode with a modifier: CSI, not SS3.
    assert_eq!(keystroke_to_bytes(&ks(ctrl, "up", None), app), b"\x1b[1;5A".to_vec());
    assert_eq!(keystroke_to_bytes(&ks(ctrl, "left", None), normal), b"\x1b[1;5D".to_vec());
    assert_eq!(keystroke_to_bytes(&ks(ctrl, "delete", None), normal), b"\x1b[3;5~".to_vec());
    assert_eq!(keystroke_to_bytes(&ks(ctrl, "f5", None), normal), b"\x1b[15;5~".to_vec());
    assert_eq!(keystroke_to_bytes(&ks(ctrl, "f1", None), normal), b"\x1b[1;5P".to_vec());
    assert_eq!(keystroke_to_bytes(&ks(ctrl, "home", None), app), b"\x1b[1;5H".to_vec());
    // Keys whose sequence takes no modifier send nothing with Control.
    assert_eq!(keystroke_to_bytes(&ks(ctrl, "tab", None), normal), Vec::<u8>::new());
    assert_eq!(keystroke_to_bytes(&ks(ctrl, "escape", None), normal), Vec::<u8>::new());
    assert_eq!(keystroke_to_bytes(&ks(ctrl, "kp5", None), normal), Vec::<u8>::new());
    // Letters still give control characters.
    assert_eq!(keystroke_to_bytes(&ks(ctrl, "c", Some("c")), normal), vec![3u8]);
}
