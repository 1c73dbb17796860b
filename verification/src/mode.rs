//! Terminal mode flags that decide how input is encoded.

use vstd::prelude::*;

verus! {

/// The terminal mode flags that the input encoders read.
///
/// Each field mirrors one DEC/xterm/kitty private mode of the emulator.
#[derive(Clone, Copy, Debug)]
pub struct TermMode {
    /// DECCKM: application cursor keys.
    pub app_cursor: bool,
    /// DECKPAM: application keypad.
    pub app_keypad: bool,
    /// Kitty keyboard protocol: disambiguate escape codes.
    pub disambiguate_esc_codes: bool,
    /// Kitty keyboard protocol: report all keys as escape codes.
    pub report_all_keys_as_esc: bool,
    /// Kitty keyboard protocol: report event types.
    pub report_event_types: bool,
    /// Mode 1000: report button presses and releases.
    pub mouse_report_click: bool,
    /// Mode 1002: report motion while a button is held.
    pub mouse_drag: bool,
    /// Mode 1003: report all motion.
    pub mouse_motion: bool,
    /// Mode 1006: SGR mouse encoding.
    pub sgr_mouse: bool,
    /// Mode 1005: UTF-8 mouse encoding.
    pub utf8_mouse: bool,
    /// Mode 1007: alternate scroll.
    pub alternate_scroll: bool,
    /// The alternate screen buffer is active.
    pub alt_screen: bool,
    /// Mode 2004: bracketed paste.
    pub bracketed_paste: bool,
    /// Mode 1004: focus in/out reports.
    pub focus_in_out: bool,
}

impl TermMode {
    /// The mode with every flag cleared.
    pub fn empty() -> (m: TermMode)
        ensures
            !m.app_cursor && !m.app_keypad,
            !m.disambiguate_esc_codes && !m.report_all_keys_as_esc && !m.report_event_types,
            !m.mouse_report_click && !m.mouse_drag && !m.mouse_motion,
            !m.sgr_mouse && !m.utf8_mouse,
            !m.alternate_scroll && !m.alt_screen,
            !m.bracketed_paste && !m.focus_in_out,
    {
        TermMode {
            app_cursor: false,
            app_keypad: false,
            disambiguate_esc_codes: false,
            report_all_keys_as_esc: false,
            report_event_types: false,
            mouse_report_click: false,
            mouse_drag: false,
            mouse_motion: false,
            sgr_mouse: false,
            utf8_mouse: false,
            alternate_scroll: false,
            alt_screen: false,
            bracketed_paste: false,
            focus_in_out: false,
        }
    }
}

/// Some mouse-reporting mode (1000, 1002 or 1003) is on.
pub open spec fn spec_in_mouse_mode(mode: TermMode) -> bool {
    mode.mouse_report_click || mode.mouse_drag || mode.mouse_motion
}

/// A motion-reporting mode (1002 or 1003) is on.
pub open spec fn spec_in_mouse_drag_mode(mode: TermMode) -> bool {
    mode.mouse_drag || mode.mouse_motion
}

/// Wheel events go to the application: mouse reporting is on, or
/// alternate scroll is on while the alternate screen is shown.
pub open spec fn spec_scroll_should_report(mode: TermMode) -> bool {
    spec_in_mouse_mode(mode) || (mode.alternate_scroll && mode.alt_screen)
}

/// Some kitty keyboard-protocol flag is on.
pub open spec fn spec_kitty_active(mode: TermMode) -> bool {
    mode.disambiguate_esc_codes || mode.report_all_keys_as_esc || mode.report_event_types
}

/// Whether the terminal is in any mouse-reporting mode.
pub fn in_mouse_mode(mode: TermMode) -> (r: bool)
    ensures
        r == spec_in_mouse_mode(mode),
{
    mode.mouse_report_click || mode.mouse_drag || mode.mouse_motion
}

/// Whether the terminal reports motion with a button held.
pub fn in_mouse_drag_mode(mode: TermMode) -> (r: bool)
    ensures
        r == spec_in_mouse_drag_mode(mode),
{
    mode.mouse_drag || mode.mouse_motion
}

/// Whether wheel events are reported to the application instead of
/// scrolling the local history.
pub fn scroll_should_report(mode: TermMode) -> (r: bool)
    ensures
        r == spec_scroll_should_report(mode),
{
    in_mouse_mode(mode) || (mode.alternate_scroll && mode.alt_screen)
}

} // verus!
