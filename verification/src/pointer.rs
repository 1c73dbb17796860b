//! What the terminal element does with mouse buttons and motion: opening
//! links, dragging the scrollbar, forwarding to the terminal core, copying
//! the selection and pasting the clipboard.
//!
//! The caller reads the event's circumstances off the window (whether the
//! pointer is over the grid, a link or the scrollbar, whether the element
//! has focus, whether the clipboard is empty) and performs the actions.

use vstd::prelude::*;

verus! {

/// The pointer state kept between events.
#[derive(Clone, Copy, Debug)]
pub struct PointerState {
    /// The left button went down on the scrollbar and has not come up.
    pub scrollbar_dragging: bool,
}

/// A mouse event over the terminal, with what the decision depends on.
#[derive(Clone, Copy, Debug)]
pub enum PointerEvent {
    /// Left press. `platform`: Cmd (or Super) is held; `cell_under_pointer`:
    /// the pointer is over a grid cell; `link_under_pointer`: that cell
    /// carries a hyperlink; `in_scrollbar`: the pointer is over the scrollbar.
    LeftDown { platform: bool, cell_under_pointer: bool, link_under_pointer: bool, in_scrollbar: bool },
    /// Left release.
    LeftUp,
    /// Motion. `button_held`: some button is pressed; `external_drag`: a
    /// drag from elsewhere is in progress; `focused`, `hovered`: the element
    /// has focus, the pointer is over it; `selection_started`: a selection
    /// is in progress.
    Move { button_held: bool, external_drag: bool, focused: bool, hovered: bool, selection_started: bool },
    /// Middle press; `clipboard_empty`: the clipboard holds no text.
    MiddleDown { clipboard_empty: bool },
    /// Middle release; `mouse_mode`: the application takes mouse reports.
    MiddleUp { mouse_mode: bool },
    /// Right press.
    RightDown { mouse_mode: bool },
    /// Right release; `focused`: the element has focus; `has_selection`:
    /// some text is selected.
    RightUp { mouse_mode: bool, focused: bool, has_selection: bool, clipboard_empty: bool },
}

/// What the element does.
#[derive(Clone, Copy, Debug)]
pub enum PointerAction {
    /// Open the hyperlink under the pointer.
    OpenLink,
    /// Scroll the history so the scrollbar thumb follows the pointer.
    ScrollTo,
    /// Hand the press to the terminal core.
    ForwardDown,
    /// Hand the release to the terminal core.
    ForwardUp,
    /// Hand the motion to the terminal core as a drag.
    ForwardDrag,
    /// Hand the motion to the terminal core as a hover.
    ForwardMove,
    /// Copy the selected text, if any, to the clipboard.
    CopySelection,
    /// Paste the clipboard's text into the terminal.
    Paste,
}

/// The state after an event and the actions it takes, in order.
///
/// - Left press: Cmd over a cell opens its link, if it has one, and does
///   nothing else; over the scrollbar it starts a scrollbar drag and
///   scrolls; otherwise the press goes to the terminal.
/// - Left release: ends a scrollbar drag and does nothing else; otherwise
///   the release goes to the terminal and the selection is copied.
/// - Motion: during a scrollbar drag it scrolls; otherwise, with a button
///   held, no outside drag and focus, it is a drag when a selection is in
///   progress or the pointer is over the element, and it is a hover
///   whenever the pointer is over the element.
/// - Middle press pastes a non-empty clipboard; in mouse mode the middle
///   release goes to the terminal.
/// - In mouse mode the right press goes to the terminal, and so does the
///   right release when the element has focus; outside mouse mode the right
///   release copies the selection if there is one, else pastes a non-empty
///   clipboard.
pub open spec fn spec_pointer_step(s: PointerState, e: PointerEvent) -> (PointerState, Seq<PointerAction>) {
    match e {
        PointerEvent::LeftDown { platform, cell_under_pointer, link_under_pointer, in_scrollbar } => {
            if platform && cell_under_pointer {
                (s, if link_under_pointer { seq![PointerAction::OpenLink] } else { seq![] })
            } else if in_scrollbar {
                (PointerState { scrollbar_dragging: true }, seq![PointerAction::ScrollTo])
            } else {
                (s, seq![PointerAction::ForwardDown])
            }
        },
        PointerEvent::LeftUp => {
            if s.scrollbar_dragging {
                (PointerState { scrollbar_dragging: false }, seq![])
            } else {
                (s, seq![PointerAction::ForwardUp, PointerAction::CopySelection])
            }
        },
        PointerEvent::Move { button_held, external_drag, focused, hovered, selection_started } => {
            if s.scrollbar_dragging {
                (s, seq![PointerAction::ScrollTo])
            } else {
                let drag: Seq<PointerAction> = if button_held && !external_drag && focused && (
                selection_started || hovered) {
                    seq![PointerAction::ForwardDrag]
                } else {
                    seq![]
                };
                (s, drag + if hovered { seq![PointerAction::ForwardMove] } else { seq![] })
            }
        },
        PointerEvent::MiddleDown { clipboard_empty } => {
            (s, if clipboard_empty { seq![] } else { seq![PointerAction::Paste] })
        },
        PointerEvent::MiddleUp { mouse_mode } => {
            (s, if mouse_mode { seq![PointerAction::ForwardUp] } else { seq![] })
        },
        PointerEvent::RightDown { mouse_mode } => {
            (s, if mouse_mode { seq![PointerAction::ForwardDown] } else { seq![] })
        },
        PointerEvent::RightUp { mouse_mode, focused, has_selection, clipboard_empty } => {
            if mouse_mode {
                (s, if focused { seq![PointerAction::ForwardUp] } else { seq![] })
            } else if has_selection {
                (s, seq![PointerAction::CopySelection])
            } else if !clipboard_empty {
                (s, seq![PointerAction::Paste])
            } else {
                (s, seq![])
            }
        },
    }
}

fn one(a: PointerAction) -> (r: Vec<PointerAction>)
    ensures
        r@ == seq![a],
{
    let mut v: Vec<PointerAction> = Vec::new();
    v.push(a);
    assert(v@ =~= seq![a]);
    v
}

/// Decide a mouse event: the next pointer state and the actions to take,
/// in order.
pub fn pointer_step(s: PointerState, e: PointerEvent) -> (r: (PointerState, Vec<PointerAction>))
    ensures
        r.0 == spec_pointer_step(s, e).0,
        r.1@ == spec_pointer_step(s, e).1,
{
    match e {
        PointerEvent::LeftDown { platform, cell_under_pointer, link_under_pointer, in_scrollbar } => {
            if platform && cell_under_pointer {
                if link_under_pointer {
                    (s, one(PointerAction::OpenLink))
                } else {
                    (s, Vec::new())
                }
            } else if in_scrollbar {
                (PointerState { scrollbar_dragging: true }, one(PointerAction::ScrollTo))
            } else {
                (s, one(PointerAction::ForwardDown))
            }
        },
        PointerEvent::LeftUp => {
            if s.scrollbar_dragging {
                (PointerState { scrollbar_dragging: false }, Vec::new())
            } else {
                let mut v: Vec<PointerAction> = Vec::new();
                v.push(PointerAction::ForwardUp);
                v.push(PointerAction::CopySelection);
                assert(v@ =~= seq![PointerAction::ForwardUp, PointerAction::CopySelection]);
                (s, v)
            }
        },
        PointerEvent::Move { button_held, external_drag, focused, hovered, selection_started } => {
            if s.scrollbar_dragging {
                (s, one(PointerAction::ScrollTo))
            } else {
                let mut v: Vec<PointerAction> = Vec::new();
                let drag = button_held && !external_drag && focused && (selection_started || hovered);
                if drag {
                    v.push(PointerAction::ForwardDrag);
                }
                if hovered {
                    v.push(PointerAction::ForwardMove);
                }
                let ghost d: Seq<PointerAction> = if drag {
                    seq![PointerAction::ForwardDrag]
                } else {
                    seq![]
                };
                let ghost m: Seq<PointerAction> = if hovered {
                    seq![PointerAction::ForwardMove]
                } else {
                    seq![]
                };
                assert(v@ =~= d + m);
                (s, v)
            }
        },
        PointerEvent::MiddleDown { clipboard_empty } => {
            if clipboard_empty {
                (s, Vec::new())
            } else {
                (s, one(PointerAction::Paste))
            }
        },
        PointerEvent::MiddleUp { mouse_mode } => {
            if mouse_mode {
                (s, one(PointerAction::ForwardUp))
            } else {
                (s, Vec::new())
            }
        },
        PointerEvent::RightDown { mouse_mode } => {
            if mouse_mode {
                (s, one(PointerAction::ForwardDown))
            } else {
                (s, Vec::new())
            }
        },
        PointerEvent::RightUp { mouse_mode, focused, has_selection, clipboard_empty } => {
            if mouse_mode {
                if focused {
                    (s, one(PointerAction::ForwardUp))
                } else {
                    (s, Vec::new())
                }
            } else if has_selection {
                (s, one(PointerAction::CopySelection))
            } else if !clipboard_empty {
                (s, one(PointerAction::Paste))
            } else {
                (s, Vec::new())
            }
        },
    }
}

// =========================================================================
// Laws
// =========================================================================

/// Auto-copy on select: a left release that ends no scrollbar drag hands
/// the release to the terminal and then copies the selection, and nothing
/// else.
pub proof fn law_left_release_copies_selection(s: PointerState)
    requires
        !s.scrollbar_dragging,
    ensures
        spec_pointer_step(s, PointerEvent::LeftUp) == (s, seq![
            PointerAction::ForwardUp,
            PointerAction::CopySelection,
        ]),
{
}

/// Cmd+click on a link opens it and does nothing else: no press reaches
/// the terminal, so no selection starts, and no scrollbar drag starts.
pub proof fn law_cmd_click_opens_link(s: PointerState, in_scrollbar: bool)
    ensures
        spec_pointer_step(
            s,
            PointerEvent::LeftDown {
                platform: true,
                cell_under_pointer: true,
                link_under_pointer: true,
                in_scrollbar,
            },
        ) == (s, seq![PointerAction::OpenLink]),
{
}

/// Outside mouse modes a right release copies the selection when there is
/// one, else pastes the clipboard when it holds text, and otherwise does
/// nothing; it never reaches the terminal.
pub proof fn law_right_release_copies_or_pastes(
    s: PointerState,
    focused: bool,
    has_selection: bool,
    clipboard_empty: bool,
)
    ensures
        spec_pointer_step(
            s,
            PointerEvent::RightUp { mouse_mode: false, focused, has_selection, clipboard_empty },
        ) == (s, if has_selection {
            seq![PointerAction::CopySelection]
        } else if !clipboard_empty {
            seq![PointerAction::Paste]
        } else {
            seq![]
        }),
{
}

/// A left press on the scrollbar starts a drag during which every motion
/// only scrolls, and the release ends the drag without reaching the
/// terminal.
pub proof fn law_scrollbar_drag(
    s: PointerState,
    platform: bool,
    button_held: bool,
    external_drag: bool,
    focused: bool,
    hovered: bool,
    selection_started: bool,
)
    requires
        !platform,
    ensures
        ({
            let d = spec_pointer_step(
                s,
                PointerEvent::LeftDown {
                    platform,
                    cell_under_pointer: true,
                    link_under_pointer: false,
                    in_scrollbar: true,
                },
            );
            let m = spec_pointer_step(
                d.0,
                PointerEvent::Move { button_held, external_drag, focused, hovered, selection_started },
            );
            let u = spec_pointer_step(m.0, PointerEvent::LeftUp);
            &&& d.0.scrollbar_dragging
            &&& d.1 == seq![PointerAction::ScrollTo]
            &&& m.1 == seq![PointerAction::ScrollTo]
            &&& !u.0.scrollbar_dragging
            &&& u.1 == Seq::<PointerAction>::empty()
        }),
{
}

} // verus!
