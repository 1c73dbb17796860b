//! Decisions of the terminal element that do not depend on pixels.

use vstd::prelude::*;

verus! {

/// Box drawing, block elements, geometric shapes and Powerline glyphs,
/// which keep their colours regardless of contrast.
pub open spec fn spec_is_decorative(c: char) -> bool {
    let u = c as u32;
    (0x2500 <= u && u <= 0x257F) || (0x2580 <= u && u <= 0x259F) || (0x25A0 <= u && u <= 0x25FF)
        || (0xE0B0 <= u && u <= 0xE0B7) || (0xE0B8 <= u && u <= 0xE0BF) || (0xE0C0 <= u && u
        <= 0xE0CA) || (0xE0CC <= u && u <= 0xE0D7)
}

/// Whether a character is a decorative glyph whose colour is kept as is.
pub fn is_decorative_character(ch: char) -> (r: bool)
    ensures
        r == spec_is_decorative(ch),
{
    let u = ch as u32;
    (0x2500 <= u && u <= 0x257F) || (0x2580 <= u && u <= 0x259F) || (0x25A0 <= u && u <= 0x25FF)
        || (0xE0B0 <= u && u <= 0xE0B7) || (0xE0B8 <= u && u <= 0xE0BF) || (0xE0C0 <= u && u
        <= 0xE0CA) || (0xE0CC <= u && u <= 0xE0D7)
}

/// The viewport cell of the cursor at grid `line`, `column`: its line is
/// moved down by the scroll offset; None when the cursor is hidden or
/// falls outside `rows` × `cols`.
pub open spec fn spec_cursor_cell(
    hidden: bool,
    line: i32,
    column: usize,
    display_offset: usize,
    rows: usize,
    cols: usize,
) -> Option<(usize, usize)> {
    let l = ((line + (display_offset as i32)) as i32) as usize;
    if hidden || l >= rows || column >= cols {
        None
    } else {
        Some((l, column))
    }
}

/// The shifted cursor line fits in `i32`.
pub open spec fn cursor_line_fits(line: i32, display_offset: usize) -> bool {
    i32::MIN <= line + (display_offset as i32) <= i32::MAX
}

/// Where the cursor is drawn in the viewport, if at all.
pub fn visible_cursor_cell(
    hidden: bool,
    line: i32,
    column: usize,
    display_offset: usize,
    rows: usize,
    cols: usize,
) -> (r: Option<(usize, usize)>)
    requires
        !hidden ==> cursor_line_fits(line, display_offset),
    ensures
        r == spec_cursor_cell(hidden, line, column, display_offset, rows, cols),
{
    if hidden {
        return None;
    }
    let l = (line + display_offset as i32) as usize;
    if l >= rows || column >= cols {
        return None;
    }
    Some((l, column))
}

/// The character painted for a cell: nothing for hidden cells, a
/// no-break space for wide-character spacers and blanks, else the cell's
/// character.
pub open spec fn spec_display_char(c: char, hidden: bool, wide_spacer: bool) -> Option<char> {
    if hidden {
        None
    } else if wide_spacer || c == ' ' {
        Some('\u{00A0}')
    } else {
        Some(c)
    }
}

/// The character to paint for a cell.
pub fn display_char(c: char, hidden: bool, wide_spacer: bool) -> (r: Option<char>)
    ensures
        r == spec_display_char(c, hidden, wide_spacer),
{
    if hidden {
        None
    } else if wide_spacer || c == ' ' {
        Some('\u{00A0}')
    } else {
        Some(c)
    }
}

/// A hidden cell paints nothing and every other cell paints something: a
/// blank or a wide-character spacer paints a no-break space (U+00A0), and
/// any other character paints itself.
pub proof fn law_display_char(c: char, hidden: bool, wide_spacer: bool)
    ensures
        hidden ==> spec_display_char(c, hidden, wide_spacer) is None,
        !hidden && (wide_spacer || c == ' ') ==> spec_display_char(c, hidden, wide_spacer) == Some('\u{00A0}'),
        !hidden && !wide_spacer && c != ' ' ==> spec_display_char(c, hidden, wide_spacer) == Some(c),
{
}

/// The decorative glyphs are exactly the box-drawing, block-element and
/// geometric-shape blocks U+2500–U+25FF and the Powerline glyphs
/// U+E0B0–U+E0D7 other than U+E0CB; ordinary text is never decorative.
pub proof fn law_decorative_ranges(c: char)
    ensures
        spec_is_decorative(c) == ((0x2500 <= (c as u32) && (c as u32) <= 0x25FF) || (0xE0B0 <= (c as u32)
            && (c as u32) <= 0xE0D7 && (c as u32) != 0xE0CB)),
        (c as u32) < 0x2500 ==> !spec_is_decorative(c),
{
}

// =========================================================================
// Frame cache
// =========================================================================

/// What the element does with a frame.
#[derive(Clone, Copy, Debug)]
pub enum FrameAction {
    /// The grid was resized and the shell has not redrawn yet: paint the
    /// background only.
    Blank,
    /// The content is unchanged: reuse the cached layout.
    Reuse,
    /// Lay the cells out again and cache the result.
    Rebuild,
}

/// The element's memory between frames: whether it waits for the shell
/// after a resize, the content hash of the cached layout, and whether a
/// layout is cached.
#[derive(Clone, Copy, Debug)]
pub struct FrameCache {
    pub resize_pending: bool,
    pub cached_hash: u64,
    pub layout_cached: bool,
}

/// The cache after the element's bounds change: the cached layout is
/// dropped, and unless the new bounds are the empty default the element
/// waits for the shell to redraw.
pub open spec fn spec_resized(c: FrameCache, default_bounds: bool) -> FrameCache {
    FrameCache { resize_pending: !default_bounds, cached_hash: 0, layout_cached: false }
}

/// The action for a frame whose content hashes to `hash`, where
/// `had_output` tells whether the last sync brought output, and the cache
/// after it: a pending resize ends with the first output; while it lasts
/// the frame is blank; otherwise an unchanged hash with a cached layout
/// reuses it, and anything else rebuilds and caches a new layout.
pub open spec fn spec_frame(c: FrameCache, hash: u64, had_output: bool) -> (FrameAction, FrameCache) {
    if c.resize_pending && !had_output {
        (FrameAction::Blank, c)
    } else if c.layout_cached && hash == c.cached_hash {
        (FrameAction::Reuse, FrameCache { resize_pending: false, ..c })
    } else {
        (FrameAction::Rebuild, FrameCache { resize_pending: false, cached_hash: hash, layout_cached: true })
    }
}

impl FrameCache {
    /// A fresh cache: nothing cached, no resize pending.
    pub fn new() -> (c: FrameCache)
        ensures
            c == (FrameCache { resize_pending: false, cached_hash: 0, layout_cached: false }),
    {
        FrameCache { resize_pending: false, cached_hash: 0, layout_cached: false }
    }

    /// The element's bounds changed (`default_bounds`: to the empty default).
    pub fn bounds_changed(&mut self, default_bounds: bool)
        ensures
            *final(self) == spec_resized(*old(self), default_bounds),
    {
        self.resize_pending = !default_bounds;
        self.cached_hash = 0;
        self.layout_cached = false;
    }

    /// Decide a frame and update the cache.
    pub fn frame(&mut self, hash: u64, had_output: bool) -> (a: FrameAction)
        ensures
            (a, *final(self)) == spec_frame(*old(self), hash, had_output),
    {
        if self.resize_pending && had_output {
            self.resize_pending = false;
        }
        if self.resize_pending {
            return FrameAction::Blank;
        }
        if self.layout_cached && hash == self.cached_hash {
            return FrameAction::Reuse;
        }
        self.cached_hash = hash;
        self.layout_cached = true;
        FrameAction::Rebuild
    }
}

/// After a resize to real bounds nothing but the background is drawn
/// until the shell produces output, and the first frame after that lays
/// the cells out anew.
pub proof fn law_resize_waits_for_output(c: FrameCache, hash: u64, later: u64)
    ensures
        spec_frame(spec_resized(c, false), hash, false).0 == FrameAction::Blank,
        spec_frame(spec_frame(spec_resized(c, false), hash, false).1, later, true).0
            == FrameAction::Rebuild,
{
}

/// A frame whose content is unchanged since the last layout reuses it.
pub proof fn law_unchanged_content_reuses_layout(c: FrameCache, hash: u64, had_output: bool)
    ensures
        spec_frame(spec_frame(c, hash, true).1, hash, had_output).0 == FrameAction::Reuse,
{
}

} // verus!
