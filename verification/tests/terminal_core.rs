use gpui_term::keys::{Keystroke, Modifiers};
use gpui_term::mode::{in_mouse_drag_mode, in_mouse_mode, scroll_should_report, TermMode};
use gpui_term::terminal_core::{
    focus_report, mouse_down_action, mouse_drag_action, mouse_move_result, mouse_report_bytes,
    mouse_up_action, paste, resize_notification_due, scroll_wheel_action, selection_type_from_click,
    sgr_mouse_encode, try_keystroke, utf8_mouse_encode, x10_mouse_encode, CoreDimensions, CoreState,
    MouseButton, MouseDownAction, MouseDragAction, MouseUpAction, NavigationDirection, ScrollAction,
    SelectionType, SideEvent,
};

#[test]
fn x10_encoding() {
    assert_eq!(x10_mouse_encode(0, 5, 3), [0x1b, b'[', b'M', 32, 37, 35]);
    // Coordinates clamp at 222 (byte 254); the button saturates at 255.
    assert_eq!(x10_mouse_encode(250, 500, 223), [0x1b, b'[', b'M', 255, 254, 254]);
}

#[test]
fn sgr_encoding() {
    assert_eq!(sgr_mouse_encode(0, 10, 20, false), b"\x1b[<0;10;20M".to_vec());
    assert_eq!(sgr_mouse_encode(2, 1, 1, true), b"\x1b[<2;1;1m".to_vec());
    assert_eq!(sgr_mouse_encode(64, 300, 1000, false), b"\x1b[<64;300;1000M".to_vec());
}

#[test]
fn utf8_encoding() {
    assert_eq!(utf8_mouse_encode(0, 10, 5, false), vec![0x1b, b'[', b'M', 32, 0xC0, 0x8A, 0xC0, 0x85]);
    // Release reports button 3; large coordinates are proper 2-byte UTF-8.
    let r = utf8_mouse_encode(0, 200, 3000, true);
    assert_eq!(r[3], 35);
    assert_eq!(&r[4..6], "\u{c8}".as_bytes());
    assert_eq!(&r[6..8], "\u{7df}".as_bytes());
}

#[test]
fn report_encoding_follows_mode() {
    let sgr = TermMode { sgr_mouse: true, utf8_mouse: true, ..TermMode::empty() };
    let utf8 = TermMode { utf8_mouse: true, ..TermMode::empty() };
    let x10 = TermMode::empty();
    assert_eq!(mouse_report_bytes(1, 2, 3, false, sgr), b"\x1b[<1;2;3M".to_vec());
    assert_eq!(mouse_report_bytes(1, 2, 3, false, utf8), vec![0x1b, b'[', b'M', 33, 0xC0, 0x82, 0xC0, 0x83]);
    // An X10 release reports button 3.
    assert_eq!(mouse_report_bytes(1, 2, 3, false, x10), vec![0x1b, b'[', b'M', 33, 34, 35]);
    assert_eq!(mouse_report_bytes(1, 2, 3, true, x10), vec![0x1b, b'[', b'M', 35, 34, 35]);
}

#[test]
fn mode_predicates() {
    let click = TermMode { mouse_report_click: true, ..TermMode::empty() };
    let drag = TermMode { mouse_drag: true, ..TermMode::empty() };
    assert!(in_mouse_mode(click));
    assert!(!in_mouse_drag_mode(click));
    assert!(in_mouse_drag_mode(drag));
    assert!(in_mouse_mode(drag));
    assert!(in_mouse_mode(TermMode { mouse_motion: true, ..TermMode::empty() }));
    assert!(!in_mouse_mode(TermMode::empty()));
    let alt_scroll = TermMode { alternate_scroll: true, alt_screen: true, ..TermMode::empty() };
    assert!(scroll_should_report(alt_scroll));
    assert!(!scroll_should_report(TermMode { alternate_scroll: true, ..TermMode::empty() }));
}

#[test]
fn selection_kinds() {
    let none = Modifiers::none();
    assert!(matches!(selection_type_from_click(1, &none), SelectionType::Simple));
    assert!(matches!(selection_type_from_click(2, &none), SelectionType::Semantic));
    assert!(matches!(selection_type_from_click(5, &none), SelectionType::Lines));
    let block = Modifiers { control: true, alt: true, ..Modifiers::none() };
    assert!(matches!(selection_type_from_click(2, &block), SelectionType::Block));
}

#[test]
fn mouse_down_reports_or_selects() {
    let sgr = TermMode { mouse_report_click: true, sgr_mouse: true, ..TermMode::empty() };
    match mouse_down_action(sgr, MouseButton::Right, 4, 7, 1, &Modifiers::none()) {
        MouseDownAction::Reply(r) => {
            assert_eq!(r.report_bytes, Some(b"\x1b[<2;4;7M".to_vec()));
            assert!(!r.needs_paint);
        }
        _ => panic!("expected a report"),
    }
    match mouse_down_action(sgr, MouseButton::Navigate(NavigationDirection::Back), 4, 7, 1, &Modifiers::none()) {
        MouseDownAction::Reply(r) => assert!(r.report_bytes.is_none() && !r.needs_paint),
        _ => panic!("navigation buttons are ignored"),
    }
    assert!(matches!(
        mouse_down_action(TermMode::empty(), MouseButton::Left, 1, 1, 3, &Modifiers::none()),
        MouseDownAction::Select(SelectionType::Lines)
    ));
}

#[test]
fn mouse_drag_and_up() {
    let drag = TermMode { mouse_drag: true, sgr_mouse: true, ..TermMode::empty() };
    match mouse_drag_action(drag, Some(MouseButton::Left), 2, 2, false) {
        MouseDragAction::Reply(r) => assert_eq!(r.report_bytes, Some(b"\x1b[<32;2;2M".to_vec())),
        _ => panic!("expected a motion report"),
    }
    assert!(matches!(mouse_drag_action(drag, None, 2, 2, true), MouseDragAction::ExtendSelection));
    match mouse_drag_action(TermMode::empty(), Some(MouseButton::Left), 2, 2, false) {
        MouseDragAction::Reply(r) => assert!(r.report_bytes.is_none() && !r.needs_paint),
        _ => panic!("nothing to do without a selection"),
    }
    let click = TermMode { mouse_report_click: true, sgr_mouse: true, ..TermMode::empty() };
    match mouse_up_action(click, MouseButton::Left, 9, 1) {
        MouseUpAction::Reply(r) => assert_eq!(r.report_bytes, Some(b"\x1b[<0;9;1m".to_vec())),
        _ => panic!("expected a release report"),
    }
    assert!(matches!(mouse_up_action(TermMode::empty(), MouseButton::Left, 9, 1), MouseUpAction::Refresh));
}

#[test]
fn mouse_hover() {
    let motion = TermMode { mouse_motion: true, sgr_mouse: true, ..TermMode::empty() };
    let r = mouse_move_result(motion, false, 3, 4);
    assert_eq!(r.report_bytes, Some(b"\x1b[<32;3;4M".to_vec()));
    assert!(r.needs_paint);
    let r = mouse_move_result(motion, true, 3, 4);
    assert!(r.report_bytes.is_none() && r.needs_paint);
}

#[test]
fn wheel_reports_each_line() {
    let sgr = TermMode { mouse_report_click: true, sgr_mouse: true, ..TermMode::empty() };
    match scroll_wheel_action(sgr, 2, 0, 1, 1, 1) {
        ScrollAction::Reply(r) => {
            assert_eq!(r.report_bytes, Some(b"\x1b[<64;1;1M\x1b[<64;1;1M\x1b[<64;1;1m".to_vec()));
            assert!(!r.needs_paint);
        }
        _ => panic!("expected reports"),
    }
    match scroll_wheel_action(sgr, -1, 1, -1, 5, 6) {
        ScrollAction::Reply(r) => assert_eq!(
            r.report_bytes,
            Some(b"\x1b[<65;5;6M\x1b[<65;5;6m\x1b[<66;5;6M\x1b[<66;5;6m".to_vec())
        ),
        _ => panic!("expected reports"),
    }
    match scroll_wheel_action(sgr, 0, 0, 1, 5, 6) {
        ScrollAction::Reply(r) => assert!(r.report_bytes.is_none()),
        _ => panic!("expected an empty reply"),
    }
}

#[test]
fn wheel_scrolls_history() {
    let m = TermMode::empty();
    assert!(matches!(scroll_wheel_action(m, 3, 0, 1, 1, 1), ScrollAction::ScrollLines(3)));
    assert!(matches!(scroll_wheel_action(m, 0, 0, -1, 1, 1), ScrollAction::ScrollLines(-1)));
    assert!(matches!(scroll_wheel_action(m, 0, 0, 1, 1, 1), ScrollAction::ScrollLines(1)));
    assert!(matches!(scroll_wheel_action(m, 0, 0, 0, 1, 1), ScrollAction::ScrollLines(0)));
}

#[test]
fn paste_bracketing() {
    let bracketed = TermMode { bracketed_paste: true, ..TermMode::empty() };
    assert_eq!(paste(bracketed, "ls"), b"\x1b[200~ls\x1b[201~".to_vec());
    assert_eq!(paste(TermMode::empty(), "ls"), b"ls".to_vec());
}

#[test]
fn focus_reports() {
    let m = TermMode { focus_in_out: true, ..TermMode::empty() };
    assert_eq!(focus_report(m, true), Some(b"\x1b[I".to_vec()));
    assert_eq!(focus_report(m, false), Some(b"\x1b[O".to_vec()));
    assert_eq!(focus_report(TermMode::empty(), true), None);
}

#[test]
fn keystroke_option() {
    let k = Keystroke { modifiers: Modifiers::none(), key: "x".to_string(), key_char: Some("x".to_string()) };
    assert_eq!(try_keystroke(&k, TermMode::empty()), Some(b"x".to_vec()));
    let none = Keystroke { modifiers: Modifiers::none(), key: "nope".to_string(), key_char: None };
    assert_eq!(try_keystroke(&none, TermMode::empty()), None);
}

#[test]
fn dimensions_at_least_one() {
    let d = CoreDimensions::from_bounds(0, 0);
    assert_eq!((d.columns(), d.screen_lines(), d.total_lines()), (1, 1, 1));
    let d = CoreDimensions::from_bounds(80, 24);
    assert_eq!((d.columns, d.screen_lines), (80, 24));
}

#[test]
fn side_band_events() {
    let mut s = CoreState::new();
    s.begin_sync(false);
    assert!(!s.had_output);
    assert!(!s.record_event(SideEvent::Title("vim".to_string())));
    assert_eq!(s.title(), "vim");
    assert!(s.had_output);
    assert!(!s.record_event(SideEvent::PtyWrite("\x1b[?6c".to_string())));
    assert!(!s.record_event(SideEvent::ColorReply(Some("rgb".to_string()))));
    assert!(!s.record_event(SideEvent::ColorReply(None)));
    assert!(!s.record_event(SideEvent::Bell));
    assert!(s.bell_pending);
    assert!(s.record_event(SideEvent::Other));
    assert_eq!(s.drain_pty_writes(), vec!["\x1b[?6c".to_string(), "rgb".to_string()]);
    assert!(s.drain_pty_writes().is_empty());
    s.record_event(SideEvent::ResetTitle);
    assert_eq!(s.title(), "");
    assert_eq!(s.matches_count(), 0);
}

#[test]
fn resize_debounce() {
    assert!(!resize_notification_due(499_999_999));
    assert!(resize_notification_due(500_000_000));
}
