//! The terminal core's decisions: mouse-report encodings (X10, UTF-8, SGR),
//! what a mouse or wheel event does in each mode, paste and focus reports,
//! and the side-band state gathered from the emulator's events.

use vstd::prelude::*;
use crate::keys::{keystroke_spec, keystroke_to_bytes, Keystroke, Modifiers};
use crate::mode::{
    in_mouse_drag_mode, in_mouse_mode, scroll_should_report, spec_in_mouse_drag_mode,
    spec_in_mouse_mode, spec_scroll_should_report, TermMode,
};
use crate::text::{decimal, push_all, push_decimal, push_str, utf8};

verus! {

// =========================================================================
// Shared types
// =========================================================================

/// Grid size handed to the emulator: never less than one column or line.
#[derive(Clone, Copy, Debug)]
pub struct CoreDimensions {
    pub columns: usize,
    pub screen_lines: usize,
}

impl CoreDimensions {
    /// Grid size from the number of columns and lines that fit, each raised
    /// to at least one.
    pub fn from_bounds(columns: usize, lines: usize) -> (d: CoreDimensions)
        ensures
            d.columns == if columns == 0 { 1 } else { columns },
            d.screen_lines == if lines == 0 { 1 } else { lines },
    {
        CoreDimensions {
            columns: if columns == 0 { 1 } else { columns },
            screen_lines: if lines == 0 { 1 } else { lines },
        }
    }

    /// Number of columns.
    pub fn columns(&self) -> (r: usize)
        ensures
            r == self.columns,
    {
        self.columns
    }

    /// Number of visible lines.
    pub fn screen_lines(&self) -> (r: usize)
        ensures
            r == self.screen_lines,
    {
        self.screen_lines
    }

    /// Total lines of the grid: the visible lines, without history.
    pub fn total_lines(&self) -> (r: usize)
        ensures
            r == self.screen_lines,
    {
        self.screen_lines
    }
}

/// Minimum time between two size notifications to the shell, in
/// nanoseconds (half a second).
pub const RESIZE_NOTIFY_INTERVAL_NANOS: u128 = 500_000_000;

/// Whether the shell is told about a new size: the grid itself is resized
/// at once, but notifications are sent at most every half second.
pub fn resize_notification_due(elapsed_nanos: u128) -> (r: bool)
    ensures
        r == (elapsed_nanos >= RESIZE_NOTIFY_INTERVAL_NANOS),
{
    elapsed_nanos >= RESIZE_NOTIFY_INTERVAL_NANOS
}

/// Result of a mouse operation on the terminal grid.
///
/// The caller sends `report_bytes` to the PTY/SSH backend when mouse
/// reporting is active, and repaints when `needs_paint` is set.
#[derive(Debug)]
pub struct MouseResult {
    /// Escape-sequence bytes for mouse-reporting mode (None = no reporting).
    pub report_bytes: Option<Vec<u8>>,
    /// The content was rebuilt and a repaint is needed.
    pub needs_paint: bool,
}

/// Result of a scroll-wheel operation.
#[derive(Debug)]
pub struct ScrollResult {
    /// Escape-sequence bytes for scroll reporting (None = no reporting).
    pub report_bytes: Option<Vec<u8>>,
    /// The content was rebuilt and a repaint is needed.
    pub needs_paint: bool,
}

/// Direction of a navigation mouse button.
#[derive(Clone, Copy, Debug)]
pub enum NavigationDirection {
    Back,
    Forward,
}

/// A mouse button.
#[derive(Clone, Copy, Debug)]
pub enum MouseButton {
    Left,
    Right,
    Middle,
    Navigate(NavigationDirection),
}

/// Kind of text selection started by a click.
#[derive(Clone, Copy, Debug)]
pub enum SelectionType {
    Simple,
    Block,
    Semantic,
    Lines,
}

// =========================================================================
// Mouse encodings
// =========================================================================

/// `v + 32`, saturating at 255.
pub open spec fn add32_sat(v: u8) -> u8 {
    if v + 32 > 255 {
        255
    } else {
        (v + 32) as u8
    }
}

/// An X10 coordinate byte: the position clamped to 222, plus 32.
pub open spec fn x10_coord(v: nat) -> u8 {
    ((if v > 222 { 222 } else { v }) + 32) as u8
}

/// `ESC [ M <button+32> <col+32> <line+32>`
pub open spec fn spec_x10(btn: u8, col: nat, line: nat) -> Seq<u8> {
    seq![27u8, 91u8, 77u8, add32_sat(btn), x10_coord(col), x10_coord(line)]
}

/// `ESC [ < <button> ; <col> ; <line> M` (press) or `m` (release).
pub open spec fn spec_sgr(btn: u8, col: nat, line: nat, release: bool) -> Seq<u8> {
    seq![27u8, 91u8, 60u8] + decimal(btn as nat) + seq![59u8] + decimal(col) + seq![59u8]
        + decimal(line) + seq![if release { 109u8 } else { 77u8 }]
}

/// A coordinate as the two bytes of a UTF-8 sequence, clamped to 2015.
pub open spec fn utf8_coord(v: nat) -> Seq<u8> {
    let c = if v > 2015 { 2015 } else { v };
    seq![(0xC0 + c / 64) as u8, (0x80 + c % 64) as u8]
}

/// `ESC [ M <button+32> <col> <line>` with UTF-8 coordinates; a release
/// reports button 3.
pub open spec fn spec_utf8_mouse(btn: u8, col: nat, line: nat, release: bool) -> Seq<u8> {
    seq![27u8, 91u8, 77u8, add32_sat(if release { 3u8 } else { btn })] + utf8_coord(col)
        + utf8_coord(line)
}

/// The mouse report in the encoding the mode selects: SGR, else UTF-8,
/// else X10, where a release reports button 3.
pub open spec fn spec_mouse_report(btn: u8, col: nat, line: nat, release: bool, mode: TermMode) -> Seq<u8> {
    if mode.sgr_mouse {
        spec_sgr(btn, col, line, release)
    } else if mode.utf8_mouse {
        spec_utf8_mouse(btn, col, line, release)
    } else {
        spec_x10(if release { 3u8 } else { btn }, col, line)
    }
}

/// X10 mouse report: `ESC [ M` and three bytes offset by 32.
pub fn x10_mouse_encode(btn: u8, col: usize, line: usize) -> (r: [u8; 6])
    ensures
        r@ == spec_x10(btn, col as nat, line as nat),
{
    let b = if btn > 223 { 255 } else { btn + 32 };
    let c: u8 = if col > 222 { 254 } else { col as u8 + 32 };
    let l: u8 = if line > 222 { 254 } else { line as u8 + 32 };
    let r = [27u8, 91u8, 77u8, b, c, l];
    assert(r@ =~= spec_x10(btn, col as nat, line as nat));
    r
}

/// SGR mouse report: `ESC [ < btn ; col ; line M` (or `m` on release).
pub fn sgr_mouse_encode(btn: u8, col: usize, line: usize, release: bool) -> (r: Vec<u8>)
    ensures
        r@ == spec_sgr(btn, col as nat, line as nat, release),
{
    let mut out: Vec<u8> = Vec::new();
    out.push(27);
    out.push(91);
    out.push(60);
    push_decimal(&mut out, btn as u64);
    out.push(59);
    push_decimal(&mut out, col as u64);
    out.push(59);
    push_decimal(&mut out, line as u64);
    out.push(if release { 109 } else { 77 });
    assert(out@ =~= spec_sgr(btn, col as nat, line as nat, release));
    out
}

/// Appends a coordinate as two UTF-8 bytes (clamped to 2015).
fn push_utf8_coord(out: &mut Vec<u8>, v: usize)
    ensures
        final(out)@ == old(out)@ + utf8_coord(v as nat),
{
    let c: usize = if v > 2015 { 2015 } else { v };
    out.push((0xC0 + c / 64) as u8);
    out.push((0x80 + c % 64) as u8);
    assert(final(out)@ =~= old(out)@ + utf8_coord(v as nat));
}

/// UTF-8 mouse report (mode 1005): `ESC [ M` then the button and two
/// coordinates encoded as UTF-8 characters.
pub fn utf8_mouse_encode(btn: u8, col: usize, line: usize, release: bool) -> (r: Vec<u8>)
    ensures
        r@ == spec_utf8_mouse(btn, col as nat, line as nat, release),
{
    let mut out: Vec<u8> = Vec::new();
    out.push(27);
    out.push(91);
    out.push(77);
    let b: u8 = if release { 3 } else { btn };
    out.push(if b > 223 { 255 } else { b + 32 });
    push_utf8_coord(&mut out, col);
    push_utf8_coord(&mut out, line);
    assert(out@ =~= spec_utf8_mouse(btn, col as nat, line as nat, release));
    out
}

/// The mouse report for the active encoding.
pub fn mouse_report_bytes(btn: u8, col: usize, line: usize, release: bool, mode: TermMode) -> (r:
    Vec<u8>)
    ensures
        r@ == spec_mouse_report(btn, col as nat, line as nat, release, mode),
{
    if mode.sgr_mouse {
        sgr_mouse_encode(btn, col, line, release)
    } else if mode.utf8_mouse {
        utf8_mouse_encode(btn, col, line, release)
    } else {
        let a = x10_mouse_encode(if release { 3 } else { btn }, col, line);
        let mut out: Vec<u8> = Vec::new();
        push_all(&mut out, &a);
        assert(out@ =~= a@);
        out
    }
}

/// The report code of a button: 0 left, 1 middle, 2 right; navigation
/// buttons are not reported.
pub open spec fn spec_btn_code(button: MouseButton) -> Option<u8> {
    match button {
        MouseButton::Left => Some(0u8),
        MouseButton::Middle => Some(1u8),
        MouseButton::Right => Some(2u8),
        MouseButton::Navigate(_) => None,
    }
}

/// Report code of a mouse button.
pub fn mouse_btn_code(button: MouseButton) -> (r: Option<u8>)
    ensures
        r == spec_btn_code(button),
{
    match button {
        MouseButton::Left => Some(0),
        MouseButton::Middle => Some(1),
        MouseButton::Right => Some(2),
        MouseButton::Navigate(_) => None,
    }
}

/// Selection started by a click: block with Ctrl+Alt, otherwise by the
/// click count (2 words, 3 or more lines, else simple).
pub open spec fn spec_selection_type(click_count: nat, mods: Modifiers) -> SelectionType {
    if mods.control && mods.alt {
        SelectionType::Block
    } else if click_count == 2 {
        SelectionType::Semantic
    } else if click_count >= 3 {
        SelectionType::Lines
    } else {
        SelectionType::Simple
    }
}

/// The selection kind for a click.
pub fn selection_type_from_click(click_count: usize, mods: &Modifiers) -> (r: SelectionType)
    ensures
        r == spec_selection_type(click_count as nat, *mods),
{
    if mods.control && mods.alt {
        return SelectionType::Block;
    }
    if click_count == 2 {
        SelectionType::Semantic
    } else if click_count >= 3 {
        SelectionType::Lines
    } else {
        SelectionType::Simple
    }
}

// =========================================================================
// What mouse and wheel events do
// =========================================================================

/// What a mouse press does.
#[derive(Debug)]
pub enum MouseDownAction {
    /// Reply to the caller with this result; the grid is untouched.
    Reply(MouseResult),
    /// Start a selection of this kind at the pressed cell, rebuild the
    /// content and repaint.
    Select(SelectionType),
}

/// What moving the mouse with a button held does.
#[derive(Debug)]
pub enum MouseDragAction {
    Reply(MouseResult),
    /// Extend the current selection to the pointer, rebuild and repaint.
    ExtendSelection,
}

/// What a mouse release does.
#[derive(Debug)]
pub enum MouseUpAction {
    Reply(MouseResult),
    /// Rebuild the content (the selection is final) and repaint.
    Refresh,
}

/// What a wheel event does.
#[derive(Debug)]
pub enum ScrollAction {
    Reply(ScrollResult),
    /// Scroll the local history by this many lines (positive is up, into
    /// history), rebuild the content and repaint.
    ScrollLines(i32),
}

/// A mouse-mode reply that reports `bytes` without repainting.
pub open spec fn reported(r: MouseResult, bytes: Seq<u8>) -> bool {
    &&& r.report_bytes is Some
    &&& r.report_bytes->0@ == bytes
    &&& !r.needs_paint
}

/// A reply that sends nothing and repaints when `paint` is set.
pub open spec fn silent(r: MouseResult, paint: bool) -> bool {
    r.report_bytes is None && r.needs_paint == paint
}

fn reply(bytes: Option<Vec<u8>>, needs_paint: bool) -> (r: MouseResult)
    ensures
        r.report_bytes == bytes,
        r.needs_paint == needs_paint,
{
    MouseResult { report_bytes: bytes, needs_paint }
}

/// A mouse press at 1-based cell (`col`, `line`).
///
/// In a mouse-reporting mode the press is reported (navigation buttons are
/// ignored); otherwise it starts a selection chosen by the click count and
/// modifiers.
pub fn mouse_down_action(
    mode: TermMode,
    button: MouseButton,
    col: usize,
    line: usize,
    click_count: usize,
    mods: &Modifiers,
) -> (r: MouseDownAction)
    ensures
        spec_in_mouse_mode(mode) ==> match r {
            MouseDownAction::Reply(res) => match spec_btn_code(button) {
                Some(b) => reported(res, spec_mouse_report(b, col as nat, line as nat, false, mode)),
                None => silent(res, false),
            },
            MouseDownAction::Select(_) => false,
        },
        !spec_in_mouse_mode(mode) ==> r == MouseDownAction::Select(
            spec_selection_type(click_count as nat, *mods),
        ),
{
    if in_mouse_mode(mode) {
        match mouse_btn_code(button) {
            Some(b) => {
                let bytes = mouse_report_bytes(b, col, line, false, mode);
                MouseDownAction::Reply(reply(Some(bytes), false))
            },
            None => MouseDownAction::Reply(reply(None, false)),
        }
    } else {
        MouseDownAction::Select(selection_type_from_click(click_count, mods))
    }
}

/// Mouse motion at 1-based cell (`col`, `line`) with `pressed` held.
///
/// In a motion-reporting mode with a button held, the motion is reported
/// with the button code plus 32; otherwise an existing selection is
/// extended, and without one nothing happens.
pub fn mouse_drag_action(
    mode: TermMode,
    pressed: Option<MouseButton>,
    col: usize,
    line: usize,
    selection_active: bool,
) -> (r: MouseDragAction)
    ensures
        (spec_in_mouse_drag_mode(mode) && pressed is Some) ==> match r {
            MouseDragAction::Reply(res) => match spec_btn_code(pressed->0) {
                Some(b) => reported(
                    res,
                    spec_mouse_report((b + 32) as u8, col as nat, line as nat, false, mode),
                ),
                None => silent(res, false),
            },
            MouseDragAction::ExtendSelection => false,
        },
        !(spec_in_mouse_drag_mode(mode) && pressed is Some) ==> (if selection_active {
            r == MouseDragAction::ExtendSelection
        } else {
            r matches MouseDragAction::Reply(res) && silent(res, false)
        }),
{
    if in_mouse_drag_mode(mode) {
        if let Some(button) = pressed {
            return match mouse_btn_code(button) {
                Some(b) => {
                    let bytes = mouse_report_bytes(b | 32, col, line, false, mode);
                    assert(b | 32 == b + 32) by (bit_vector)
                        requires
                            b <= 2,
                    ;
                    MouseDragAction::Reply(reply(Some(bytes), false))
                },
                None => MouseDragAction::Reply(reply(None, false)),
            };
        }
    }
    if selection_active {
        MouseDragAction::ExtendSelection
    } else {
        MouseDragAction::Reply(reply(None, false))
    }
}

/// A mouse release at 1-based cell (`col`, `line`): reported as a release
/// in a mouse-reporting mode, otherwise it finalises the selection.
pub fn mouse_up_action(mode: TermMode, button: MouseButton, col: usize, line: usize) -> (r:
    MouseUpAction)
    ensures
        spec_in_mouse_mode(mode) ==> match r {
            MouseUpAction::Reply(res) => match spec_btn_code(button) {
                Some(b) => reported(res, spec_mouse_report(b, col as nat, line as nat, true, mode)),
                None => silent(res, false),
            },
            MouseUpAction::Refresh => false,
        },
        !spec_in_mouse_mode(mode) ==> r == MouseUpAction::Refresh,
{
    if in_mouse_mode(mode) {
        match mouse_btn_code(button) {
            Some(b) => {
                let bytes = mouse_report_bytes(b, col, line, true, mode);
                MouseUpAction::Reply(reply(Some(bytes), false))
            },
            None => MouseUpAction::Reply(reply(None, false)),
        }
    } else {
        MouseUpAction::Refresh
    }
}

/// Hover at 1-based cell (`col`, `line`): in mode 1003 with no button held
/// the motion is reported as button 32. Either way the view repaints.
pub fn mouse_move_result(mode: TermMode, button_held: bool, col: usize, line: usize) -> (r:
    MouseResult)
    ensures
        r.needs_paint,
        (mode.mouse_motion && !button_held) ==> (r.report_bytes is Some && r.report_bytes->0@
            == spec_mouse_report(32, col as nat, line as nat, false, mode)),
        !(mode.mouse_motion && !button_held) ==> r.report_bytes is None,
{
    if mode.mouse_motion && !button_held {
        let bytes = mouse_report_bytes(32, col, line, false, mode);
        return reply(Some(bytes), true);
    }
    reply(None, true)
}

/// `n` copies of `s`.
pub open spec fn repeat(s: Seq<u8>, n: nat) -> Seq<u8>
    decreases n,
{
    if n == 0 {
        seq![]
    } else {
        repeat(s, (n - 1) as nat) + s
    }
}

/// `|v|`
pub open spec fn abs(v: int) -> nat {
    if v < 0 {
        (-v) as nat
    } else {
        v as nat
    }
}

/// Reports for one wheel axis: one press per line in the direction's
/// button, then one release; nothing for zero lines.
pub open spec fn axis_reports(lines: int, up: u8, down: u8, col: nat, line: nat, mode: TermMode) -> Seq<u8> {
    if lines == 0 {
        seq![]
    } else {
        let btn = if lines > 0 { up } else { down };
        repeat(spec_mouse_report(btn, col, line, false, mode), abs(lines)) + spec_mouse_report(
            btn,
            col,
            line,
            true,
            mode,
        )
    }
}

/// All wheel reports: vertical (buttons 64/65) then horizontal (66/67).
pub open spec fn wheel_reports(v_lines: int, h_lines: int, col: nat, line: nat, mode: TermMode) -> Seq<u8> {
    axis_reports(v_lines, 64, 65, col, line, mode) + axis_reports(h_lines, 66, 67, col, line, mode)
}

/// Lines the local history scrolls: the rounded delta, but at least one
/// line in the wheel's direction when the delta is not zero.
pub open spec fn spec_scroll_lines(v_lines: i32, dy_sign: i32) -> i32 {
    if v_lines == 0 && dy_sign != 0 {
        if dy_sign > 0 {
            1i32
        } else {
            -1i32
        }
    } else {
        v_lines
    }
}

/// Appends the reports of one wheel axis.
fn push_axis_reports(
    out: &mut Vec<u8>,
    lines: i32,
    up: u8,
    down: u8,
    col: usize,
    line: usize,
    mode: TermMode,
)
    requires
        lines != i32::MIN,
    ensures
        final(out)@ == old(out)@ + axis_reports(lines as int, up, down, col as nat, line as nat, mode),
{
    if lines != 0 {
        let btn: u8 = if lines > 0 { up } else { down };
        let n: i32 = if lines < 0 { -lines } else { lines };
        let press = mouse_report_bytes(btn, col, line, false, mode);
        let ghost p = spec_mouse_report(btn, col as nat, line as nat, false, mode);
        let mut i: i32 = 0;
        while i < n
            invariant
                0 <= i <= n,
                press@ == p,
                out@ == old(out)@ + repeat(p, i as nat),
            decreases n - i,
        {
            push_all(out, press.as_slice());
            i = i + 1;
            assert(repeat(p, i as nat) == repeat(p, (i - 1) as nat) + p);
            assert(out@ =~= old(out)@ + repeat(p, i as nat));
        }
        let release = mouse_report_bytes(btn, col, line, true, mode);
        push_all(out, release.as_slice());
        assert(abs(lines as int) == n as nat);
    }
    assert(final(out)@ =~= old(out)@ + axis_reports(lines as int, up, down, col as nat, line as nat, mode));
}

/// A wheel event at 1-based cell (`col`, `line`) that moved `v_lines`
/// vertically and `h_lines` horizontally (rounded to whole lines), where
/// `dy_sign` is the sign of the unrounded vertical delta.
///
/// When the application takes wheel events, every line is reported as a
/// wheel-button press followed by one release per axis; otherwise the
/// local history scrolls.
pub fn scroll_wheel_action(
    mode: TermMode,
    v_lines: i32,
    h_lines: i32,
    dy_sign: i32,
    col: usize,
    line: usize,
) -> (r: ScrollAction)
    requires
        v_lines != i32::MIN,
        h_lines != i32::MIN,
    ensures
        spec_scroll_should_report(mode) ==> match r {
            ScrollAction::Reply(res) => !res.needs_paint && (if v_lines == 0 && h_lines == 0 {
                res.report_bytes is None
            } else {
                res.report_bytes is Some && res.report_bytes->0@ == wheel_reports(
                    v_lines as int,
                    h_lines as int,
                    col as nat,
                    line as nat,
                    mode,
                )
            }),
            ScrollAction::ScrollLines(_) => false,
        },
        !spec_scroll_should_report(mode) ==> r == ScrollAction::ScrollLines(
            spec_scroll_lines(v_lines, dy_sign),
        ),
{
    if scroll_should_report(mode) {
        let mut bytes: Vec<u8> = Vec::new();
        push_axis_reports(&mut bytes, v_lines, 64, 65, col, line, mode);
        push_axis_reports(&mut bytes, h_lines, 66, 67, col, line, mode);
        proof {
            lemma_axis_reports_len(v_lines as int, 64, 65, col as nat, line as nat, mode);
            lemma_axis_reports_len(h_lines as int, 66, 67, col as nat, line as nat, mode);
        }
        assert(bytes@ =~= wheel_reports(v_lines as int, h_lines as int, col as nat, line as nat, mode));
        if bytes.len() > 0 {
            return ScrollAction::Reply(ScrollResult { report_bytes: Some(bytes), needs_paint: false });
        }
        return ScrollAction::Reply(ScrollResult { report_bytes: None, needs_paint: false });
    }
    let lines: i32 = if v_lines == 0 && dy_sign != 0 {
        if dy_sign > 0 {
            1
        } else {
            -1
        }
    } else {
        v_lines
    };
    ScrollAction::ScrollLines(lines)
}

/// Every mouse report is non-empty.
proof fn lemma_mouse_report_nonempty(btn: u8, col: nat, line: nat, release: bool, mode: TermMode)
    ensures
        spec_mouse_report(btn, col, line, release, mode).len() > 0,
{
}

/// The reports of an axis are empty exactly when it did not move.
proof fn lemma_axis_reports_len(lines: int, up: u8, down: u8, col: nat, line: nat, mode: TermMode)
    ensures
        (axis_reports(lines, up, down, col, line, mode).len() == 0) == (lines == 0),
{
    if lines != 0 {
        let btn = if lines > 0 { up } else { down };
        lemma_mouse_report_nonempty(btn, col, line, true, mode);
    }
}

// =========================================================================
// Paste, focus, keyboard
// =========================================================================

/// Bytes for pasting `text`: wrapped in `ESC [200~` ... `ESC [201~` when
/// bracketed paste is on.
pub open spec fn spec_paste(mode: TermMode, text: Seq<char>) -> Seq<u8> {
    if mode.bracketed_paste {
        seq![27u8, 91u8, 50u8, 48u8, 48u8, 126u8] + utf8(text) + seq![27u8, 91u8, 50u8, 48u8, 49u8, 126u8]
    } else {
        utf8(text)
    }
}

/// Build paste bytes, wrapped in bracketed-paste markers when the mode asks.
pub fn paste(mode: TermMode, text: &str) -> (r: Vec<u8>)
    ensures
        r@ == spec_paste(mode, text@),
{
    let mut out: Vec<u8> = Vec::new();
    if mode.bracketed_paste {
        push_all(&mut out, &[27u8, 91u8, 50u8, 48u8, 48u8, 126u8]);
        push_str(&mut out, text);
        push_all(&mut out, &[27u8, 91u8, 50u8, 48u8, 49u8, 126u8]);
    } else {
        push_str(&mut out, text);
    }
    assert(out@ =~= spec_paste(mode, text@));
    out
}

/// Focus report (mode 1004): `ESC [ I` on focus in, `ESC [ O` on focus
/// out; nothing when the mode is off.
pub fn focus_report(mode: TermMode, focused: bool) -> (r: Option<Vec<u8>>)
    ensures
        mode.focus_in_out ==> (r is Some && r->0@ == seq![27u8, 91u8, if focused { 73u8 } else { 79u8 }]),
        !mode.focus_in_out ==> r is None,
{
    if mode.focus_in_out {
        let mut out: Vec<u8> = Vec::new();
        out.push(27);
        out.push(91);
        out.push(if focused { 73 } else { 79 });
        assert(out@ =~= seq![27u8, 91u8, if focused { 73u8 } else { 79u8 }]);
        Some(out)
    } else {
        None
    }
}

/// The bytes of a keystroke, or None when it sends nothing.
pub fn try_keystroke(keystroke: &Keystroke, mode: TermMode) -> (r: Option<Vec<u8>>)
    ensures
        keystroke_spec(*keystroke, mode).len() == 0 ==> r is None,
        keystroke_spec(*keystroke, mode).len() > 0 ==> (r is Some && r->0@ == keystroke_spec(
            *keystroke,
            mode,
        )),
{
    let bytes = keystroke_to_bytes(keystroke, mode);
    if bytes.len() == 0 {
        None
    } else {
        Some(bytes)
    }
}

// =========================================================================
// Side-band state
// =========================================================================

/// A side-band event of the emulator, reduced to what the core keeps.
#[derive(Debug)]
pub enum SideEvent {
    /// OSC 0/2: new window title.
    Title(String),
    /// The title was reset.
    ResetTitle,
    /// BEL.
    Bell,
    /// Text the emulator answers to the application (DA, DSR, ...).
    PtyWrite(String),
    /// The answer to a colour query, if the queried colour is set.
    ColorReply(Option<String>),
    /// Any other event, handed on to the caller.
    Other,
}

/// The state the core accumulates from side-band events.
#[derive(Debug)]
pub struct CoreState {
    /// OSC 0/2 window title.
    pub title_text: String,
    /// True if a BEL was received.
    pub bell_pending: bool,
    /// True if the last sync processed output or events.
    pub had_output: bool,
    /// Answers queued for the application, oldest first.
    pub pty_write_queue: Vec<String>,
}

impl CoreState {
    /// Answers queued for the application, oldest first.
    pub open spec fn queued(&self) -> Seq<String> {
        self.pty_write_queue@
    }

    /// Fresh state: no title, no bell, nothing queued.
    pub fn new() -> (s: CoreState)
        ensures
            s.title_text@ == Seq::<char>::empty(),
            !s.bell_pending,
            !s.had_output,
            s.queued() == Seq::<String>::empty(),
    {
        CoreState {
            title_text: String::new(),
            bell_pending: false,
            had_output: false,
            pty_write_queue: Vec::new(),
        }
    }

    /// Start a sync: output was processed iff `processed_output`.
    pub fn begin_sync(&mut self, processed_output: bool)
        ensures
            final(self).had_output == processed_output,
            final(self).title_text == old(self).title_text,
            final(self).bell_pending == old(self).bell_pending,
            final(self).queued() == old(self).queued(),
    {
        self.had_output = processed_output;
    }

    /// Record one side-band event. Returns whether the event is handed on
    /// to the caller (clipboard requests and the like).
    pub fn record_event(&mut self, event: SideEvent) -> (forwarded: bool)
        ensures
            final(self).had_output,
            forwarded == (event is Other),
            final(self).title_text@ == match event {
                SideEvent::Title(t) => t@,
                SideEvent::ResetTitle => Seq::<char>::empty(),
                _ => old(self).title_text@,
            },
            final(self).bell_pending == (old(self).bell_pending || event is Bell),
            final(self).queued() == match event {
                SideEvent::PtyWrite(t) => old(self).queued().push(t),
                SideEvent::ColorReply(Some(t)) => old(self).queued().push(t),
                _ => old(self).queued(),
            },
    {
        self.had_output = true;
        match event {
            SideEvent::Title(t) => {
                self.title_text = t;
                false
            },
            SideEvent::ResetTitle => {
                self.title_text = String::new();
                false
            },
            SideEvent::Bell => {
                self.bell_pending = true;
                false
            },
            SideEvent::PtyWrite(t) => {
                self.pty_write_queue.push(t);
                false
            },
            SideEvent::ColorReply(reply) => {
                if let Some(t) = reply {
                    self.pty_write_queue.push(t);
                }
                false
            },
            SideEvent::Other => true,
        }
    }

    /// Take the queued answers (DA responses, DSR, colour replies, ...) to
    /// send to the PTY/SSH backend, oldest first; the queue is left empty.
    pub fn drain_pty_writes(&mut self) -> (r: Vec<String>)
        ensures
            r@ == old(self).queued(),
            final(self).queued() == Seq::<String>::empty(),
            final(self).title_text == old(self).title_text,
            final(self).bell_pending == old(self).bell_pending,
            final(self).had_output == old(self).had_output,
    {
        let mut taken: Vec<String> = Vec::new();
        std::mem::swap(&mut taken, &mut self.pty_write_queue);
        taken
    }

    /// The window title.
    pub fn title(&self) -> (r: &str)
        ensures
            r@ == self.title_text@,
    {
        self.title_text.as_str()
    }

    /// Search is not implemented: there are never matches.
    pub fn matches_count(&self) -> (r: usize)
        ensures
            r == 0,
    {
        0
    }
}

// =========================================================================
// Laws of the mouse encodings
// =========================================================================

/// An application decoding an X10 report recovers the button plus 32 and
/// the coordinates, each clamped to 222, by subtracting 32.
pub proof fn law_x10_decodes(btn: u8, col: nat, line: nat)
    requires
        btn <= 223,
    ensures
        spec_x10(btn, col, line).len() == 6,
        spec_x10(btn, col, line).subrange(0, 3) == seq![27u8, 91u8, 77u8],
        spec_x10(btn, col, line)[3] - 32 == btn,
        spec_x10(btn, col, line)[4] - 32 == if col > 222 { 222 } else { col },
        spec_x10(btn, col, line)[5] - 32 == if line > 222 { 222 } else { line },
{
    assert(spec_x10(btn, col, line).subrange(0, 3) =~= seq![27u8, 91u8, 77u8]);
}

/// A UTF-8 coordinate is the two-byte UTF-8 encoding of the clamped
/// coordinate, and decodes back to it.
pub proof fn law_utf8_coord_decodes(v: nat)
    ensures
        0xC0 <= utf8_coord(v)[0] <= 0xDF,
        0x80 <= utf8_coord(v)[1] <= 0xBF,
        (utf8_coord(v)[0] - 0xC0) * 64 + (utf8_coord(v)[1] - 0x80) == if v > 2015 { 2015 } else { v },
        (0x80 <= v <= 2015) ==> utf8_coord(v) == vstd::utf8::encode_scalar(v as u32),
{
    let c: nat = if v > 2015 { 2015 } else { v };
    assert(c == (c / 64) * 64 + c % 64) by (nonlinear_arith);
    assert(c / 64 <= 31) by (nonlinear_arith)
        requires
            c <= 2015,
    ;
    if 0x80 <= v <= 2015 {
        let u = v as u32;
        assert(0x80 <= u <= 0x7FF ==> (0xC0u32 | ((u >> 6) & 0x1F)) == 0xC0 + u / 64 && (0x80u32 | (u
            & 0x3F)) == 0x80 + u % 64) by (bit_vector);
        assert(0x80 <= u <= 0x7FF ==> ((u >> 6) & 0x1F) < 32 && (u & 0x3F) < 64) by (bit_vector);
        assert(0xC0 | ((u >> 6) & 0x1F) as u8 == (0xC0 + u / 64) as u8) by (bit_vector)
            requires
                0x80 <= u <= 0x7FF,
        ;
        assert(0x80 | (u & 0x3F) as u8 == (0x80 + u % 64) as u8) by (bit_vector)
            requires
                0x80 <= u <= 0x7FF,
        ;
        assert(utf8_coord(v) =~= vstd::utf8::encode_scalar(u));
    }
}

/// Splitting `a ; x` where `a` is all digits is unique.
proof fn lemma_split_at_separator(a: Seq<u8>, x: Seq<u8>, b: Seq<u8>, y: Seq<u8>)
    requires
        crate::text::all_digits(a),
        crate::text::all_digits(b),
        a + seq![59u8] + x == b + seq![59u8] + y,
    ensures
        a == b,
        x == y,
{
    let l = a + seq![59u8] + x;
    let r = b + seq![59u8] + y;
    if a.len() < b.len() {
        assert(l[a.len() as int] == 59);
        assert(r[a.len() as int] == b[a.len() as int]);
    } else if b.len() < a.len() {
        assert(r[b.len() as int] == 59);
        assert(l[b.len() as int] == a[b.len() as int]);
    }
    assert(a.len() == b.len());
    assert(a =~= l.subrange(0, a.len() as int));
    assert(b =~= r.subrange(0, b.len() as int));
    assert(x =~= l.subrange(a.len() as int + 1, l.len() as int));
    assert(y =~= r.subrange(b.len() as int + 1, r.len() as int));
}

/// SGR reports are unambiguous: equal reports come from the same button,
/// position and press/release.
#[verifier::spinoff_prover]
#[verifier::rlimit(40)]
pub proof fn law_sgr_unambiguous(
    b1: u8,
    c1: nat,
    l1: nat,
    r1: bool,
    b2: u8,
    c2: nat,
    l2: nat,
    r2: bool,
)
    requires
        spec_sgr(b1, c1, l1, r1) == spec_sgr(b2, c2, l2, r2),
    ensures
        b1 == b2,
        c1 == c2,
        l1 == l2,
        r1 == r2,
{
    crate::text::lemma_decimal_digits(b1 as nat);
    crate::text::lemma_decimal_digits(b2 as nat);
    crate::text::lemma_decimal_digits(c1);
    crate::text::lemma_decimal_digits(c2);
    crate::text::lemma_decimal_digits(l1);
    crate::text::lemma_decimal_digits(l2);
    let p = seq![27u8, 91u8, 60u8];
    let f1 = seq![if r1 { 109u8 } else { 77u8 }];
    let f2 = seq![if r2 { 109u8 } else { 77u8 }];
    let s1 = spec_sgr(b1, c1, l1, r1);
    let s2 = spec_sgr(b2, c2, l2, r2);
    assert(s1.last() == f1[0]);
    assert(s2.last() == f2[0]);
    let t1 = s1.subrange(3, s1.len() - 1);
    let t2 = s2.subrange(3, s2.len() - 1);
    assert(t1 =~= decimal(b1 as nat) + seq![59u8] + (decimal(c1) + seq![59u8] + decimal(l1)));
    assert(t2 =~= decimal(b2 as nat) + seq![59u8] + (decimal(c2) + seq![59u8] + decimal(l2)));
    lemma_split_at_separator(decimal(b1 as nat), decimal(c1) + seq![59u8] + decimal(l1), decimal(b2 as nat), decimal(c2) + seq![59u8] + decimal(l2));
    lemma_split_at_separator(decimal(c1), decimal(l1), decimal(c2), decimal(l2));
    crate::text::lemma_decimal_injective(b1 as nat, b2 as nat);
    crate::text::lemma_decimal_injective(c1, c2);
    crate::text::lemma_decimal_injective(l1, l2);
}

/// A press and a release are told apart in every encoding: SGR marks the
/// release with `m`, UTF-8 and X10 report it as button 3 (byte 35), so any
/// press of another button differs from its release.
pub proof fn law_release_distinguished(btn: u8, col: nat, line: nat, mode: TermMode)
    ensures
        (mode.sgr_mouse || btn != 3) ==> spec_mouse_report(btn, col, line, true, mode)
            != spec_mouse_report(btn, col, line, false, mode),
        !mode.sgr_mouse ==> spec_mouse_report(btn, col, line, true, mode)[3] == 35u8,
{
    let a = spec_mouse_report(btn, col, line, true, mode);
    let b = spec_mouse_report(btn, col, line, false, mode);
    if mode.sgr_mouse {
        assert(a.last() != b.last());
    } else {
        assert(a[3] == add32_sat(3));
        if btn != 3 {
            assert(b[3] == add32_sat(btn));
        }
    }
}

/// The report code of a press in each encoding: SGR writes it in decimal,
/// X10 and UTF-8 as the byte `code + 32`.
proof fn lemma_press_code_byte(code: u8, col: nat, line: nat, mode: TermMode)
    requires
        code < 10,
    ensures
        mode.sgr_mouse ==> spec_mouse_report(code, col, line, false, mode) == seq![27u8, 91u8, 60u8, (48 + code) as u8]
            + seq![59u8] + decimal(col) + seq![59u8] + decimal(line) + seq![77u8],
        !mode.sgr_mouse ==> spec_mouse_report(code, col, line, false, mode)[3] == (code + 32) as u8,
{
    if mode.sgr_mouse {
        assert(decimal(code as nat) == seq![(48 + code) as u8]);
        assert(spec_mouse_report(code, col, line, false, mode) =~= seq![27u8, 91u8, 60u8, (48 + code) as u8]
            + seq![59u8] + decimal(col) + seq![59u8] + decimal(line) + seq![77u8]);
    }
}

/// The left, middle and right buttons are reported as buttons 0, 1 and 2
/// in every encoding, at every position: an SGR press reads
/// `ESC [ < 0 ;`, `ESC [ < 1 ;` or `ESC [ < 2 ;`, and an X10 or UTF-8 press
/// carries the byte 32, 33 or 34. Navigation buttons are not reported.
/// So different buttons never give the same report.
pub proof fn law_button_codes(col: nat, line: nat, mode: TermMode)
    ensures
        spec_btn_code(MouseButton::Left) is Some && spec_btn_code(MouseButton::Middle) is Some
            && spec_btn_code(MouseButton::Right) is Some,
        mode.sgr_mouse ==> spec_mouse_report(spec_btn_code(MouseButton::Left)->0, col, line, false, mode).subrange(0, 5)
            == seq![27u8, 91u8, 60u8, 48u8, 59u8],
        mode.sgr_mouse ==> spec_mouse_report(spec_btn_code(MouseButton::Middle)->0, col, line, false, mode).subrange(0, 5)
            == seq![27u8, 91u8, 60u8, 49u8, 59u8],
        mode.sgr_mouse ==> spec_mouse_report(spec_btn_code(MouseButton::Right)->0, col, line, false, mode).subrange(0, 5)
            == seq![27u8, 91u8, 60u8, 50u8, 59u8],
        !mode.sgr_mouse ==> spec_mouse_report(spec_btn_code(MouseButton::Left)->0, col, line, false, mode)[3] == 32u8,
        !mode.sgr_mouse ==> spec_mouse_report(spec_btn_code(MouseButton::Middle)->0, col, line, false, mode)[3] == 33u8,
        !mode.sgr_mouse ==> spec_mouse_report(spec_btn_code(MouseButton::Right)->0, col, line, false, mode)[3] == 34u8,
        forall|d: NavigationDirection| #[trigger] spec_btn_code(MouseButton::Navigate(d)) is None,
        forall|a: MouseButton, b: MouseButton|
            #[trigger] spec_btn_code(a) is Some && #[trigger] spec_btn_code(b) is Some && spec_btn_code(a)
                == spec_btn_code(b) ==> a == b,
{
    lemma_press_code_byte(0, col, line, mode);
    lemma_press_code_byte(1, col, line, mode);
    lemma_press_code_byte(2, col, line, mode);
    if mode.sgr_mouse {
        let l = spec_mouse_report(0, col, line, false, mode);
        assert(l.subrange(0, 5) =~= seq![27u8, 91u8, 60u8, 48u8, 59u8]);
        let mm = spec_mouse_report(1, col, line, false, mode);
        assert(mm.subrange(0, 5) =~= seq![27u8, 91u8, 60u8, 49u8, 59u8]);
        let r = spec_mouse_report(2, col, line, false, mode);
        assert(r.subrange(0, 5) =~= seq![27u8, 91u8, 60u8, 50u8, 59u8]);
    }
}

/// The selection a click starts: Ctrl+Alt selects a block whatever the
/// count; otherwise a double click selects words, a triple (or more)
/// click whole lines, and a single click plain text.
pub proof fn law_click_selection(click_count: nat, mods: Modifiers)
    ensures
        mods.control && mods.alt ==> spec_selection_type(click_count, mods) == SelectionType::Block,
        !(mods.control && mods.alt) && click_count == 2 ==> spec_selection_type(click_count, mods)
            == SelectionType::Semantic,
        !(mods.control && mods.alt) && click_count >= 3 ==> spec_selection_type(click_count, mods)
            == SelectionType::Lines,
        !(mods.control && mods.alt) && click_count <= 1 ==> spec_selection_type(click_count, mods)
            == SelectionType::Simple,
{
}

/// With bracketed paste on, the pasted text is sent between `ESC [ 200 ~`
/// and `ESC [ 201 ~`; with it off, the text is sent as it is. Either way
/// the text itself is its UTF-8 encoding, unchanged.
pub proof fn law_bracketed_paste(mode: TermMode, text: Seq<char>)
    ensures
        mode.bracketed_paste ==> spec_paste(mode, text).subrange(0, 6) == seq![27u8, 91u8, 50u8, 48u8, 48u8, 126u8],
        mode.bracketed_paste ==> spec_paste(mode, text).subrange(
            spec_paste(mode, text).len() - 6,
            spec_paste(mode, text).len() as int,
        ) == seq![27u8, 91u8, 50u8, 48u8, 49u8, 126u8],
        mode.bracketed_paste ==> spec_paste(mode, text).subrange(6, spec_paste(mode, text).len() - 6) == utf8(text),
        !mode.bracketed_paste ==> spec_paste(mode, text) == utf8(text),
{
    if mode.bracketed_paste {
        let p = spec_paste(mode, text);
        let a = seq![27u8, 91u8, 50u8, 48u8, 48u8, 126u8];
        let b = seq![27u8, 91u8, 50u8, 48u8, 49u8, 126u8];
        assert(p == a + utf8(text) + b);
        assert(p.subrange(0, 6) =~= a);
        assert(p.subrange(p.len() - 6, p.len() as int) =~= b);
        assert(p.subrange(6, p.len() - 6) =~= utf8(text));
    }
}

/// Wheel reports use button 64 for a step up and 65 for a step down, 66
/// and 67 for left and right: in SGR a wheel moving only vertically starts
/// `ESC [ < 64 ;` (up) or `ESC [ < 65 ;` (down), and one moving only
/// horizontally `ESC [ < 66 ;` or `ESC [ < 67 ;`. Outside reporting, the
/// local history scrolls by the rounded delta, at least one line in the
/// wheel's direction.
pub proof fn law_wheel_buttons(lines: int, col: nat, line: nat, mode: TermMode, v: i32, sign: i32)
    requires
        mode.sgr_mouse,
        lines != 0,
    ensures
        wheel_reports(lines, 0, col, line, mode).subrange(0, 6) == seq![27u8, 91u8, 60u8, 54u8, if lines > 0 {
            52u8
        } else {
            53u8
        }, 59u8],
        wheel_reports(0, lines, col, line, mode).subrange(0, 6) == seq![27u8, 91u8, 60u8, 54u8, if lines > 0 {
            54u8
        } else {
            55u8
        }, 59u8],
        v != 0 ==> spec_scroll_lines(v, sign) == v,
        v == 0 && sign > 0 ==> spec_scroll_lines(v, sign) == 1,
        v == 0 && sign < 0 ==> spec_scroll_lines(v, sign) == -1,
        v == 0 && sign == 0 ==> spec_scroll_lines(v, sign) == 0,
{
    reveal_with_fuel(decimal, 2);
    let b: u8 = if lines > 0 { 64 } else { 65 };
    let h: u8 = if lines > 0 { 66 } else { 67 };
    let n = abs(lines);
    assert(n >= 1);
    assert(repeat(spec_mouse_report(b, col, line, false, mode), n) == repeat(
        spec_mouse_report(b, col, line, false, mode),
        (n - 1) as nat,
    ) + spec_mouse_report(b, col, line, false, mode));
    lemma_repeat_prefix(spec_mouse_report(b, col, line, false, mode), n);
    lemma_repeat_prefix(spec_mouse_report(h, col, line, false, mode), n);
    let pb = spec_mouse_report(b, col, line, false, mode);
    let ph = spec_mouse_report(h, col, line, false, mode);
    assert(pb.subrange(0, 6) =~= seq![27u8, 91u8, 60u8, 54u8, if lines > 0 { 52u8 } else { 53u8 }, 59u8]);
    assert(ph.subrange(0, 6) =~= seq![27u8, 91u8, 60u8, 54u8, if lines > 0 { 54u8 } else { 55u8 }, 59u8]);
    let wv = wheel_reports(lines, 0, col, line, mode);
    let wh = wheel_reports(0, lines, col, line, mode);
    assert(axis_reports(0, 64, 65, col, line, mode) == Seq::<u8>::empty());
    assert(wh == axis_reports(lines, 66, 67, col, line, mode));
    assert(wv == axis_reports(lines, 64, 65, col, line, mode) + axis_reports(0, 66, 67, col, line, mode));
    assert(wv.subrange(0, 6) =~= pb.subrange(0, 6));
    assert(wh.subrange(0, 6) =~= ph.subrange(0, 6));
}

/// `n` ≥ 1 copies of `s` begin with `s`.
proof fn lemma_repeat_prefix(s: Seq<u8>, n: nat)
    requires
        n >= 1,
    ensures
        repeat(s, n).len() >= s.len(),
        repeat(s, n).subrange(0, s.len() as int) == s,
    decreases n,
{
    if n == 1 {
        assert(repeat(s, 0) =~= Seq::<u8>::empty());
        assert(repeat(s, 1) =~= s);
    } else {
        lemma_repeat_prefix(s, (n - 1) as nat);
        let r = repeat(s, (n - 1) as nat);
        assert(repeat(s, n) == r + s);
        assert((r + s).subrange(0, s.len() as int) =~= r.subrange(0, s.len() as int));
    }
}

} // verus!
