use gpui_term::pointer::{pointer_step, PointerAction, PointerEvent, PointerState};

fn idle() -> PointerState {
    PointerState { scrollbar_dragging: false }
}

fn names(actions: &[PointerAction]) -> Vec<&'static str> {
    actions
        .iter()
        .map(|a| match a {
            PointerAction::OpenLink => "open",
            PointerAction::ScrollTo => "scroll",
            PointerAction::ForwardDown => "down",
            PointerAction::ForwardUp => "up",
            PointerAction::ForwardDrag => "drag",
            PointerAction::ForwardMove => "move",
            PointerAction::CopySelection => "copy",
            PointerAction::Paste => "paste",
        })
        .collect()
}

fn left_down(platform: bool, cell: bool, link: bool, bar: bool) -> PointerEvent {
    PointerEvent::LeftDown { platform, cell_under_pointer: cell, link_under_pointer: link, in_scrollbar: bar }
}

#[test]
fn left_press_and_release() {
    let (s, a) = pointer_step(idle(), left_down(false, true, false, false));
    assert!(!s.scrollbar_dragging);
    assert_eq!(names(&a), vec!["down"]);
    // Auto-copy on select.
    let (s, a) = pointer_step(s, PointerEvent::LeftUp);
    assert!(!s.scrollbar_dragging);
    assert_eq!(names(&a), vec!["up", "copy"]);
}

#[test]
fn cmd_click_opens_links_only() {
    let (_, a) = pointer_step(idle(), left_down(true, true, true, false));
    assert_eq!(names(&a), vec!["open"]);
    // Cmd+click on a plain cell does nothing at all.
    let (_, a) = pointer_step(idle(), left_down(true, true, false, true));
    assert!(a.is_empty());
    // Cmd without a cell under the pointer behaves like a plain press.
    let (_, a) = pointer_step(idle(), left_down(true, false, false, false));
    assert_eq!(names(&a), vec!["down"]);
}

#[test]
fn scrollbar_drag_cycle() {
    let (s, a) = pointer_step(idle(), left_down(false, true, false, true));
    assert!(s.scrollbar_dragging);
    assert_eq!(names(&a), vec!["scroll"]);
    let mv = PointerEvent::Move { button_held: true, external_drag: false, focused: true, hovered: true, selection_started: true };
    let (s, a) = pointer_step(s, mv);
    assert!(s.scrollbar_dragging);
    assert_eq!(names(&a), vec!["scroll"]);
    let (s, a) = pointer_step(s, PointerEvent::LeftUp);
    assert!(!s.scrollbar_dragging);
    assert!(a.is_empty());
}

#[test]
fn motion_forwarding() {
    let ev = |button_held, external_drag, focused, hovered, selection_started| PointerEvent::Move {
        button_held,
        external_drag,
        focused,
        hovered,
        selection_started,
    };
    assert_eq!(names(&pointer_step(idle(), ev(true, false, true, true, false)).1), vec!["drag", "move"]);
    // Dragging a selection out of the element keeps extending it.
    assert_eq!(names(&pointer_step(idle(), ev(true, false, true, false, true)).1), vec!["drag"]);
    assert_eq!(names(&pointer_step(idle(), ev(true, true, true, true, true)).1), vec!["move"]);
    assert_eq!(names(&pointer_step(idle(), ev(true, false, false, true, true)).1), vec!["move"]);
    assert!(pointer_step(idle(), ev(false, false, true, false, false)).1.is_empty());
}

#[test]
fn middle_and_right_buttons() {
    assert_eq!(names(&pointer_step(idle(), PointerEvent::MiddleDown { clipboard_empty: false }).1), vec!["paste"]);
    assert!(pointer_step(idle(), PointerEvent::MiddleDown { clipboard_empty: true }).1.is_empty());
    assert_eq!(names(&pointer_step(idle(), PointerEvent::MiddleUp { mouse_mode: true }).1), vec!["up"]);
    assert!(pointer_step(idle(), PointerEvent::MiddleUp { mouse_mode: false }).1.is_empty());
    assert_eq!(names(&pointer_step(idle(), PointerEvent::RightDown { mouse_mode: true }).1), vec!["down"]);
    assert!(pointer_step(idle(), PointerEvent::RightDown { mouse_mode: false }).1.is_empty());
    let up = |mouse_mode, focused, has_selection, clipboard_empty| PointerEvent::RightUp {
        mouse_mode,
        focused,
        has_selection,
        clipboard_empty,
    };
    assert_eq!(names(&pointer_step(idle(), up(true, true, true, false)).1), vec!["up"]);
    assert!(pointer_step(idle(), up(true, false, true, false)).1.is_empty());
    assert_eq!(names(&pointer_step(idle(), up(false, false, true, false)).1), vec!["copy"]);
    assert_eq!(names(&pointer_step(idle(), up(false, true, false, false)).1), vec!["paste"]);
    assert!(pointer_step(idle(), up(false, true, false, true)).1.is_empty());
}
