use gpui_term::element::{display_char, is_decorative_character, visible_cursor_cell, FrameAction, FrameCache};
use gpui_term::font::default_monospace_family;
use gpui_term::highlight::{to_highlighted_range_lines, GridPoint};
use gpui_term::ssh::{
    auth_error_message, connection_outcome, default_key_path, next_auth_method, session_title,
    session_total_lines, ssh_address, AuthMethod, ConnectionState,
};
use gpui_term::url::is_openable_url;

#[test]
fn openable_urls() {
    assert!(is_openable_url("https://example.com/path?q=1"));
    assert!(is_openable_url("mailto:someone@example.com"));
    assert!(is_openable_url("file:///tmp/x"));
    assert!(!is_openable_url("javascript:alert(1)"));
    assert!(!is_openable_url("https://example.com/$(reboot)"));
    assert!(!is_openable_url("https://a.com/x&y"));
    assert!(!is_openable_url("http://a b"));
    assert!(!is_openable_url("http://a\u{a0}b"));
    assert!(!is_openable_url("http://a\u{85}b"));
    assert!(!is_openable_url("ssh:/host"));
    assert!(!is_openable_url(""));
}

#[test]
fn font_family_per_os() {
    assert_eq!(default_monospace_family("macos"), "Menlo");
    assert_eq!(default_monospace_family("windows"), "Consolas");
    assert_eq!(default_monospace_family("linux"), "monospace");
    assert_eq!(default_monospace_family("freebsd"), "monospace");
}

#[test]
fn highlight_two_lines() {
    let (first, spans) = to_highlighted_range_lines(
        GridPoint { line: 1, column: 4 },
        GridPoint { line: 0, column: 2 },
        0,
        10,
        5,
    )
    .unwrap();
    assert_eq!(first, 0);
    assert_eq!(spans.len(), 2);
    assert_eq!((spans[0].start_col, spans[0].end_col), (2, 10));
    assert_eq!((spans[1].start_col, spans[1].end_col), (0, 5));
}

#[test]
fn highlight_scrolled_and_clipped() {
    // A range in scrollback, shown with a display offset of 3.
    let (first, spans) = to_highlighted_range_lines(
        GridPoint { line: -5, column: 1 },
        GridPoint { line: -2, column: 3 },
        3,
        8,
        4,
    )
    .unwrap();
    assert_eq!(first, 0);
    assert_eq!(spans.len(), 2);
    assert_eq!((spans[0].start_col, spans[0].end_col), (0, 8));
    assert_eq!((spans[1].start_col, spans[1].end_col), (0, 4));
    // Entirely above the viewport.
    assert!(to_highlighted_range_lines(
        GridPoint { line: -9, column: 0 },
        GridPoint { line: -8, column: 0 },
        0,
        8,
        4
    )
    .is_none());
    // Same line, reversed columns are reordered.
    let (_, spans) = to_highlighted_range_lines(
        GridPoint { line: 2, column: 6 },
        GridPoint { line: 2, column: 1 },
        0,
        8,
        4,
    )
    .unwrap();
    assert_eq!(spans.len(), 1);
    assert_eq!((spans[0].start_col, spans[0].end_col), (1, 7));
}

#[test]
fn cursor_cell_and_glyphs() {
    assert_eq!(visible_cursor_cell(false, 2, 3, 0, 24, 80), Some((2, 3)));
    assert_eq!(visible_cursor_cell(false, 2, 3, 30, 24, 80), None);
    assert_eq!(visible_cursor_cell(true, 2, 3, 0, 24, 80), None);
    assert_eq!(visible_cursor_cell(false, -1, 3, 1, 24, 80), Some((0, 3)));
    assert_eq!(visible_cursor_cell(false, 0, 80, 0, 24, 80), None);
    assert!(is_decorative_character('\u{2500}'));
    assert!(is_decorative_character('\u{E0B0}'));
    assert!(!is_decorative_character('a'));
    assert!(!is_decorative_character('\u{E0CB}'));
    assert_eq!(display_char('x', false, false), Some('x'));
    assert_eq!(display_char(' ', false, false), Some('\u{a0}'));
    assert_eq!(display_char('x', false, true), Some('\u{a0}'));
    assert_eq!(display_char('x', true, false), None);
}

#[test]
fn ssh_plan_and_strings() {
    let mut seen = Vec::new();
    let mut step = next_auth_method(None, true, true);
    while let Some(m) = step {
        seen.push(m);
        step = next_auth_method(Some(m), true, true);
    }
    assert_eq!(
        seen,
        vec![
            AuthMethod::NoAuth,
            AuthMethod::Agent,
            AuthMethod::DefaultKey(0),
            AuthMethod::DefaultKey(1),
            AuthMethod::DefaultKey(2),
            AuthMethod::IdentityFile,
            AuthMethod::Password
        ]
    );
    assert_eq!(next_auth_method(Some(AuthMethod::DefaultKey(2)), false, true), Some(AuthMethod::Password));
    assert_eq!(next_auth_method(Some(AuthMethod::DefaultKey(2)), false, false), None);
    assert_eq!(ssh_address("localhost", 22), "localhost:22");
    assert_eq!(ssh_address("h", 65535), "h:65535");
    assert_eq!(session_title("me", "box"), "me@box");
    assert_eq!(default_key_path("/home/me", 0), "/home/me/.ssh/id_ed25519");
    assert_eq!(default_key_path("/home/me", 2), "/home/me/.ssh/id_rsa");
    assert_eq!(auth_error_message("me", "box", 2222, false), "No authentication method succeeded for me@box:2222");
    assert_eq!(auth_error_message("me", "box", 2222, true), "SSH authentication failed");
    assert_eq!(session_total_lines(3), 24);
    assert_eq!(session_total_lines(100), 100);
    assert_eq!(connection_outcome(true), ConnectionState::Connected);
    assert_eq!(connection_outcome(false), ConnectionState::Error);
}

#[test]
fn frame_cache_waits_and_reuses() {
    let mut c = FrameCache::new();
    // First frame: nothing cached, lay out.
    assert!(matches!(c.frame(7, false), FrameAction::Rebuild));
    // Same content: reuse.
    assert!(matches!(c.frame(7, false), FrameAction::Reuse));
    // Changed content: lay out again.
    assert!(matches!(c.frame(8, false), FrameAction::Rebuild));
    // A resize to real bounds blanks frames until the shell has output.
    c.bounds_changed(false);
    assert!(c.resize_pending && !c.layout_cached && c.cached_hash == 0);
    assert!(matches!(c.frame(8, false), FrameAction::Blank));
    assert!(matches!(c.frame(8, false), FrameAction::Blank));
    assert!(matches!(c.frame(8, true), FrameAction::Rebuild));
    assert!(matches!(c.frame(8, false), FrameAction::Reuse));
    // A resize to the empty default does not wait.
    c.bounds_changed(true);
    assert!(matches!(c.frame(8, false), FrameAction::Rebuild));
}

#[test]
fn highlight_height_wraps_as_i32() {
    // A height past i32::MAX is taken modulo 2^32, as an i32 cast does.
    let a = to_highlighted_range_lines(GridPoint { line: 1, column: 4 }, GridPoint { line: 0, column: 2 }, 0, 10, 5).unwrap();
    let b = to_highlighted_range_lines(
        GridPoint { line: 1, column: 4 },
        GridPoint { line: 0, column: 2 },
        0,
        10,
        (1usize << 32) + 5,
    )
    .unwrap();
    assert_eq!(a.0, b.0);
    assert_eq!(a.1.len(), b.1.len());
    // A height that wraps to a negative i32 is fine when the range is off screen.
    assert!(to_highlighted_range_lines(GridPoint { line: -9, column: 0 }, GridPoint { line: -8, column: 0 }, 0, 10, 1usize << 31).is_none());
}

#[test]
fn hidden_cursor_needs_no_line_arithmetic() {
    assert_eq!(visible_cursor_cell(true, i32::MAX, 0, 5, 10, 10), None);
}
