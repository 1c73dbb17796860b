//! Terminal colours: the XTerm 256-colour palette as RGB triples and the
//! classification of cell colours.

use vstd::prelude::*;

verus! {

/// A 24-bit RGB colour.
#[derive(Clone, Copy, Debug, PartialEq, Eq, Structural)]
pub struct Rgb {
    pub r: u8,
    pub g: u8,
    pub b: u8,
}

/// The named colours of the theme palette.
#[derive(Clone, Copy, Debug, PartialEq, Eq, Structural)]
pub enum NamedColor {
    Black,
    Red,
    Green,
    Yellow,
    Blue,
    Magenta,
    Cyan,
    White,
    BrightBlack,
    BrightRed,
    BrightGreen,
    BrightYellow,
    BrightBlue,
    BrightMagenta,
    BrightCyan,
    BrightWhite,
    Foreground,
    Background,
    Cursor,
    DimBlack,
    DimRed,
    DimGreen,
    DimYellow,
    DimBlue,
    DimMagenta,
    DimCyan,
    DimWhite,
    BrightForeground,
    DimForeground,
}

/// A cell colour: a theme colour, direct RGB, or an index into the
/// 256-colour table.
#[derive(Clone, Copy, Debug)]
pub enum Color {
    Named(NamedColor),
    Spec(Rgb),
    Indexed(u8),
}

/// Whether a terminal colour was chosen by the application (direct RGB or
/// indexed) rather than inherited from the theme.
pub fn is_explicit_color(c: Color) -> (r: bool)
    ensures
        r == !(c is Named),
{
    match c {
        Color::Spec(_) | Color::Indexed(_) => true,
        Color::Named(_) => false,
    }
}

/// The colour is the theme's default foreground.
pub fn is_default_foreground(c: Color) -> (r: bool)
    ensures
        r == (c == Color::Named(NamedColor::Foreground)),
{
    match c {
        Color::Named(NamedColor::Foreground) => true,
        _ => false,
    }
}

/// The colour is the theme's default background.
pub fn is_default_background(c: Color) -> (r: bool)
    ensures
        r == (c == Color::Named(NamedColor::Background)),
{
    match c {
        Color::Named(NamedColor::Background) => true,
        _ => false,
    }
}

/// Channel intensity of colour-cube coordinate `index` (0..5).
pub open spec fn spec_cube_value(index: u8) -> u8 {
    if index == 0 {
        0
    } else if index == 1 {
        95
    } else if index == 2 {
        135
    } else if index == 3 {
        175
    } else if index == 4 {
        215
    } else if index == 5 {
        255
    } else {
        0
    }
}

/// The 16 standard VGA colours as XTerm shows them.
pub open spec fn spec_ansi16(index: u8) -> Rgb {
    if index == 0 {
        Rgb { r: 0, g: 0, b: 0 }
    } else if index == 1 {
        Rgb { r: 205, g: 0, b: 0 }
    } else if index == 2 {
        Rgb { r: 0, g: 205, b: 0 }
    } else if index == 3 {
        Rgb { r: 205, g: 205, b: 0 }
    } else if index == 4 {
        Rgb { r: 0, g: 0, b: 238 }
    } else if index == 5 {
        Rgb { r: 205, g: 0, b: 205 }
    } else if index == 6 {
        Rgb { r: 0, g: 205, b: 205 }
    } else if index == 7 {
        Rgb { r: 229, g: 229, b: 229 }
    } else if index == 8 {
        Rgb { r: 127, g: 127, b: 127 }
    } else if index == 9 {
        Rgb { r: 255, g: 0, b: 0 }
    } else if index == 10 {
        Rgb { r: 0, g: 255, b: 0 }
    } else if index == 11 {
        Rgb { r: 255, g: 255, b: 0 }
    } else if index == 12 {
        Rgb { r: 92, g: 92, b: 255 }
    } else if index == 13 {
        Rgb { r: 255, g: 0, b: 255 }
    } else if index == 14 {
        Rgb { r: 0, g: 255, b: 255 }
    } else {
        Rgb { r: 255, g: 255, b: 255 }
    }
}

/// Colour `offset` of the 6×6×6 cube: red, green and blue coordinates
/// are the base-6 digits of the offset.
pub open spec fn spec_color_cube(offset: u8) -> Rgb {
    Rgb {
        r: spec_cube_value(offset / 36),
        g: spec_cube_value((offset % 36) / 6),
        b: spec_cube_value(offset % 6),
    }
}

/// Step `step` of the grey ramp: 8, 18, ..., 238.
pub open spec fn spec_gray_ramp(step: u8) -> Rgb {
    let v = (8 + step * 10) as u8;
    Rgb { r: v, g: v, b: v }
}

/// The XTerm 256-colour palette: 16 VGA colours, the colour cube, the
/// grey ramp.
pub open spec fn spec_indexed(index: u8) -> Rgb {
    if index < 16 {
        spec_ansi16(index)
    } else if index < 232 {
        spec_color_cube((index - 16) as u8)
    } else {
        spec_gray_ramp((index - 232) as u8)
    }
}

/// Channel intensity of a colour-cube coordinate; 0 outside 0..5.
pub fn cube_value(index: u8) -> (r: u8)
    ensures
        r == spec_cube_value(index),
{
    match index {
        0 => 0,
        1 => 95,
        2 => 135,
        3 => 175,
        4 => 215,
        5 => 255,
        _ => 0,
    }
}

/// One of the 16 standard ANSI/VGA colours (0–7 normal, 8–15 bright).
pub fn ansi16_to_rgb(index: u8) -> (c: Rgb)
    requires
        index < 16,
    ensures
        c == spec_ansi16(index),
{
    let (r, g, b): (u8, u8, u8) = match index {
        0 => (0, 0, 0),
        1 => (205, 0, 0),
        2 => (0, 205, 0),
        3 => (205, 205, 0),
        4 => (0, 0, 238),
        5 => (205, 0, 205),
        6 => (0, 205, 205),
        7 => (229, 229, 229),
        8 => (127, 127, 127),
        9 => (255, 0, 0),
        10 => (0, 255, 0),
        11 => (255, 255, 0),
        12 => (92, 92, 255),
        13 => (255, 0, 255),
        14 => (0, 255, 255),
        _ => (255, 255, 255),
    };
    Rgb { r, g, b }
}

/// A colour of the 6×6×6 RGB cube (palette indices 16–231).
pub fn color_cube(offset: u8) -> (c: Rgb)
    ensures
        c == spec_color_cube(offset),
{
    let r = cube_value(offset / 36);
    let g = cube_value((offset % 36) / 6);
    let b = cube_value(offset % 6);
    Rgb { r, g, b }
}

/// A grey of the ramp (palette indices 232–255).
pub fn gray_ramp(step: u8) -> (c: Rgb)
    requires
        step < 25,
    ensures
        c == spec_gray_ramp(step),
{
    let v = 8 + step * 10;
    Rgb { r: v, g: v, b: v }
}

/// Map a 256-colour index to RGB using the standard XTerm palette.
pub fn indexed_to_rgb(index: u8) -> (c: Rgb)
    ensures
        c == spec_indexed(index),
{
    if index < 16 {
        ansi16_to_rgb(index)
    } else if index < 232 {
        color_cube(index - 16)
    } else {
        gray_ramp(index - 232)
    }
}

/// Palette indices 0–15 are the xterm VGA colours: black, red, green,
/// yellow, blue, magenta, cyan, white, then their bright forms. A cell
/// coloured with such an index resolves to that colour, whatever the theme.
pub proof fn law_vga_palette<C>(i: u8, tc: TerminalColors<C>)
    requires
        i < 16,
    ensures
        spec_resolve(Color::Indexed(i), tc) == (ResolvedColor::<C>::Rgb(spec_indexed(i))),
        i == 0 ==> spec_indexed(i) == (Rgb { r: 0, g: 0, b: 0 }),
        i == 1 ==> spec_indexed(i) == (Rgb { r: 205, g: 0, b: 0 }),
        i == 2 ==> spec_indexed(i) == (Rgb { r: 0, g: 205, b: 0 }),
        i == 3 ==> spec_indexed(i) == (Rgb { r: 205, g: 205, b: 0 }),
        i == 4 ==> spec_indexed(i) == (Rgb { r: 0, g: 0, b: 238 }),
        i == 5 ==> spec_indexed(i) == (Rgb { r: 205, g: 0, b: 205 }),
        i == 6 ==> spec_indexed(i) == (Rgb { r: 0, g: 205, b: 205 }),
        i == 7 ==> spec_indexed(i) == (Rgb { r: 229, g: 229, b: 229 }),
        i == 8 ==> spec_indexed(i) == (Rgb { r: 127, g: 127, b: 127 }),
        i == 9 ==> spec_indexed(i) == (Rgb { r: 255, g: 0, b: 0 }),
        i == 10 ==> spec_indexed(i) == (Rgb { r: 0, g: 255, b: 0 }),
        i == 11 ==> spec_indexed(i) == (Rgb { r: 255, g: 255, b: 0 }),
        i == 12 ==> spec_indexed(i) == (Rgb { r: 92, g: 92, b: 255 }),
        i == 13 ==> spec_indexed(i) == (Rgb { r: 255, g: 0, b: 255 }),
        i == 14 ==> spec_indexed(i) == (Rgb { r: 0, g: 255, b: 255 }),
        i == 15 ==> spec_indexed(i) == (Rgb { r: 255, g: 255, b: 255 }),
{
}

/// Palette index `16 + 36·r + 6·g + b` is the cube colour with channel
/// intensities `cube(r)`, `cube(g)`, `cube(b)`.
pub proof fn law_cube_coordinates(r: u8, g: u8, b: u8)
    requires
        r < 6,
        g < 6,
        b < 6,
    ensures
        spec_indexed((16 + 36 * r + 6 * g + b) as u8) == (Rgb {
            r: spec_cube_value(r),
            g: spec_cube_value(g),
            b: spec_cube_value(b),
        }),
{
    let o: u8 = (36 * r + 6 * g + b) as u8;
    assert(o == 36 * r + 6 * g + b);
    assert(o / 36 == r && (o % 36) / 6 == g && o % 6 == b) by (nonlinear_arith)
        requires
            o == 36 * r + 6 * g + b,
            r < 6,
            g < 6,
            b < 6,
    ;
}

/// The six intensities of the colour cube are 0, then `55 + 40·k` for
/// `k` = 1..5 (95, 135, 175, 215, 255): each coordinate step brightens the
/// channel.
pub proof fn law_cube_levels(k: u8, j: u8)
    requires
        k < 6,
        j < 6,
    ensures
        spec_cube_value(k) == if k == 0 { 0 } else { 55 + 40 * k },
        k < j ==> spec_cube_value(k) < spec_cube_value(j),
{
}

/// Palette index `232 + k` is the grey with all channels `8 + 10·k`.
pub proof fn law_gray_ramp(k: u8)
    requires
        k < 24,
    ensures
        spec_indexed((232 + k) as u8) == (Rgb {
            r: (8 + 10 * k) as u8,
            g: (8 + 10 * k) as u8,
            b: (8 + 10 * k) as u8,
        }),
{
}

/// Theme-defined ANSI terminal colours, one palette entry of type `C`
/// per named colour.
#[derive(Clone, Copy, Debug)]
pub struct TerminalColors<C> {
    /// Default background colour.
    pub background: C,
    /// Default foreground (text) colour.
    pub foreground: C,
    /// Bright/bold foreground variant (used for the cursor and bold text).
    pub bright_foreground: C,
    /// Dimmed foreground variant (used for the unfocused cursor).
    pub dim_foreground: C,
    pub black: C,
    pub red: C,
    pub green: C,
    pub yellow: C,
    pub blue: C,
    pub magenta: C,
    pub cyan: C,
    pub white: C,
    pub bright_black: C,
    pub bright_red: C,
    pub bright_green: C,
    pub bright_yellow: C,
    pub bright_blue: C,
    pub bright_magenta: C,
    pub bright_cyan: C,
    pub bright_white: C,
    pub dim_black: C,
    pub dim_red: C,
    pub dim_green: C,
    pub dim_yellow: C,
    pub dim_blue: C,
    pub dim_magenta: C,
    pub dim_cyan: C,
    pub dim_white: C,
}

/// The palette entry of a named colour; the cursor uses the bright
/// foreground.
pub open spec fn spec_named<C>(n: NamedColor, tc: TerminalColors<C>) -> C {
    match n {
        NamedColor::Black => tc.black,
        NamedColor::Red => tc.red,
        NamedColor::Green => tc.green,
        NamedColor::Yellow => tc.yellow,
        NamedColor::Blue => tc.blue,
        NamedColor::Magenta => tc.magenta,
        NamedColor::Cyan => tc.cyan,
        NamedColor::White => tc.white,
        NamedColor::BrightBlack => tc.bright_black,
        NamedColor::BrightRed => tc.bright_red,
        NamedColor::BrightGreen => tc.bright_green,
        NamedColor::BrightYellow => tc.bright_yellow,
        NamedColor::BrightBlue => tc.bright_blue,
        NamedColor::BrightMagenta => tc.bright_magenta,
        NamedColor::BrightCyan => tc.bright_cyan,
        NamedColor::BrightWhite => tc.bright_white,
        NamedColor::Foreground => tc.foreground,
        NamedColor::Background => tc.background,
        NamedColor::Cursor => tc.bright_foreground,
        NamedColor::DimBlack => tc.dim_black,
        NamedColor::DimRed => tc.dim_red,
        NamedColor::DimGreen => tc.dim_green,
        NamedColor::DimYellow => tc.dim_yellow,
        NamedColor::DimBlue => tc.dim_blue,
        NamedColor::DimMagenta => tc.dim_magenta,
        NamedColor::DimCyan => tc.dim_cyan,
        NamedColor::DimWhite => tc.dim_white,
        NamedColor::BrightForeground => tc.bright_foreground,
        NamedColor::DimForeground => tc.dim_foreground,
    }
}

/// Map a named colour to its palette entry.
pub fn named_hsla<C: Copy>(n: NamedColor, tc: &TerminalColors<C>) -> (r: C)
    ensures
        r == spec_named(n, *tc),
{
    match n {
        NamedColor::Black => tc.black,
        NamedColor::Red => tc.red,
        NamedColor::Green => tc.green,
        NamedColor::Yellow => tc.yellow,
        NamedColor::Blue => tc.blue,
        NamedColor::Magenta => tc.magenta,
        NamedColor::Cyan => tc.cyan,
        NamedColor::White => tc.white,
        NamedColor::BrightBlack => tc.bright_black,
        NamedColor::BrightRed => tc.bright_red,
        NamedColor::BrightGreen => tc.bright_green,
        NamedColor::BrightYellow => tc.bright_yellow,
        NamedColor::BrightBlue => tc.bright_blue,
        NamedColor::BrightMagenta => tc.bright_magenta,
        NamedColor::BrightCyan => tc.bright_cyan,
        NamedColor::BrightWhite => tc.bright_white,
        NamedColor::Foreground => tc.foreground,
        NamedColor::Background => tc.background,
        NamedColor::Cursor => tc.bright_foreground,
        NamedColor::DimBlack => tc.dim_black,
        NamedColor::DimRed => tc.dim_red,
        NamedColor::DimGreen => tc.dim_green,
        NamedColor::DimYellow => tc.dim_yellow,
        NamedColor::DimBlue => tc.dim_blue,
        NamedColor::DimMagenta => tc.dim_magenta,
        NamedColor::DimCyan => tc.dim_cyan,
        NamedColor::DimWhite => tc.dim_white,
        NamedColor::BrightForeground => tc.bright_foreground,
        NamedColor::DimForeground => tc.dim_foreground,
    }
}

/// A cell colour resolved against the palette: a palette entry, or an
/// RGB value still to be converted to the drawing colour space.
#[derive(Clone, Copy, Debug)]
pub enum ResolvedColor<C> {
    Theme(C),
    Rgb(Rgb),
}

/// Named colours come from the palette, indexed colours from the XTerm
/// table, direct colours as they are.
pub open spec fn spec_resolve<C>(c: Color, tc: TerminalColors<C>) -> ResolvedColor<C> {
    match c {
        Color::Named(n) => ResolvedColor::Theme(spec_named(n, tc)),
        Color::Indexed(i) => ResolvedColor::Rgb(spec_indexed(i)),
        Color::Spec(r) => ResolvedColor::Rgb(r),
    }
}

/// Resolve a cell's foreground colour.
pub fn cell_fg<C: Copy>(c: Color, tc: &TerminalColors<C>) -> (r: ResolvedColor<C>)
    ensures
        r == spec_resolve(c, *tc),
{
    match c {
        Color::Named(n) => ResolvedColor::Theme(named_hsla(n, tc)),
        Color::Indexed(i) => ResolvedColor::Rgb(indexed_to_rgb(i)),
        Color::Spec(r) => ResolvedColor::Rgb(r),
    }
}

/// Resolve a cell's background colour; the same conversion as
/// [`cell_fg`], kept separate for clarity at call sites.
pub fn cell_bg<C: Copy>(c: Color, tc: &TerminalColors<C>) -> (r: ResolvedColor<C>)
    ensures
        r == spec_resolve(c, *tc),
{
    cell_fg(c, tc)
}

/// The colours a cell is drawn with before contrast and dimming.
#[derive(Clone, Copy, Debug)]
pub struct CellColors<C> {
    /// Foreground; None for the theme's default foreground.
    pub fg: Option<ResolvedColor<C>>,
    /// Background; None for the theme's default background.
    pub bg: Option<ResolvedColor<C>>,
    /// The foreground must be adjusted for contrast against the background.
    pub adjust_contrast: bool,
}

/// Inverse video swaps the colours; the default foreground and background
/// stay unresolved; contrast is adjusted when both colours are set, the
/// foreground comes from the theme, and the glyph is not decorative.
pub open spec fn spec_cell_colors<C>(
    fg: Color,
    bg: Color,
    inverse: bool,
    decorative: bool,
    tc: TerminalColors<C>,
) -> CellColors<C> {
    let f = if inverse { bg } else { fg };
    let b = if inverse { fg } else { bg };
    let fr = if f == Color::Named(NamedColor::Foreground) {
        None
    } else {
        Some(spec_resolve(f, tc))
    };
    let br = if b == Color::Named(NamedColor::Background) {
        None
    } else {
        Some(spec_resolve(b, tc))
    };
    CellColors { fg: fr, bg: br, adjust_contrast: fr is Some && br is Some && f is Named && !decorative }
}

/// Inverse video draws a cell exactly as if its two colours were
/// exchanged. A direct RGB foreground is drawn as it is and never adjusted
/// for contrast; the default foreground and background are left to the
/// theme; a decorative glyph is never adjusted.
pub proof fn law_cell_colors<C>(fg: Color, bg: Color, decorative: bool, tc: TerminalColors<C>)
    ensures
        spec_cell_colors(fg, bg, true, decorative, tc) == spec_cell_colors(bg, fg, false, decorative, tc),
        fg matches Color::Spec(r) ==> spec_cell_colors(fg, bg, false, decorative, tc).fg == Some(
            ResolvedColor::<C>::Rgb(r),
        ) && !spec_cell_colors(fg, bg, false, decorative, tc).adjust_contrast,
        fg == Color::Named(NamedColor::Foreground) ==> spec_cell_colors(fg, bg, false, decorative, tc).fg is None,
        bg == Color::Named(NamedColor::Background) ==> spec_cell_colors(fg, bg, false, decorative, tc).bg is None,
        decorative ==> !spec_cell_colors(fg, bg, false, decorative, tc).adjust_contrast,
{
}

/// Each named colour takes the palette entry of the same name; the cursor
/// colour is the bright foreground.
pub proof fn law_named_colors<C>(tc: TerminalColors<C>)
    ensures
        spec_named(NamedColor::Black, tc) == tc.black,
        spec_named(NamedColor::Red, tc) == tc.red,
        spec_named(NamedColor::Green, tc) == tc.green,
        spec_named(NamedColor::Yellow, tc) == tc.yellow,
        spec_named(NamedColor::Blue, tc) == tc.blue,
        spec_named(NamedColor::Magenta, tc) == tc.magenta,
        spec_named(NamedColor::Cyan, tc) == tc.cyan,
        spec_named(NamedColor::White, tc) == tc.white,
        spec_named(NamedColor::BrightBlack, tc) == tc.bright_black,
        spec_named(NamedColor::BrightRed, tc) == tc.bright_red,
        spec_named(NamedColor::BrightGreen, tc) == tc.bright_green,
        spec_named(NamedColor::BrightYellow, tc) == tc.bright_yellow,
        spec_named(NamedColor::BrightBlue, tc) == tc.bright_blue,
        spec_named(NamedColor::BrightMagenta, tc) == tc.bright_magenta,
        spec_named(NamedColor::BrightCyan, tc) == tc.bright_cyan,
        spec_named(NamedColor::BrightWhite, tc) == tc.bright_white,
        spec_named(NamedColor::Foreground, tc) == tc.foreground,
        spec_named(NamedColor::Background, tc) == tc.background,
        spec_named(NamedColor::Cursor, tc) == tc.bright_foreground,
        spec_named(NamedColor::DimBlack, tc) == tc.dim_black,
        spec_named(NamedColor::DimRed, tc) == tc.dim_red,
        spec_named(NamedColor::DimGreen, tc) == tc.dim_green,
        spec_named(NamedColor::DimYellow, tc) == tc.dim_yellow,
        spec_named(NamedColor::DimBlue, tc) == tc.dim_blue,
        spec_named(NamedColor::DimMagenta, tc) == tc.dim_magenta,
        spec_named(NamedColor::DimCyan, tc) == tc.dim_cyan,
        spec_named(NamedColor::DimWhite, tc) == tc.dim_white,
        spec_named(NamedColor::BrightForeground, tc) == tc.bright_foreground,
        spec_named(NamedColor::DimForeground, tc) == tc.dim_foreground,
{
}

/// The colours of a cell with foreground `fg`, background `bg`, the
/// inverse flag, and whether its glyph is decorative.
pub fn cell_colors<C: Copy>(
    fg: Color,
    bg: Color,
    inverse: bool,
    decorative: bool,
    tc: &TerminalColors<C>,
) -> (r: CellColors<C>)
    ensures
        r == spec_cell_colors(fg, bg, inverse, decorative, *tc),
{
    let (f, b) = if inverse { (bg, fg) } else { (fg, bg) };
    let fr = if is_default_foreground(f) { None } else { Some(cell_fg(f, tc)) };
    let br = if is_default_background(b) { None } else { Some(cell_bg(b, tc)) };
    let adjust = fr.is_some() && br.is_some() && !is_explicit_color(f) && !decorative;
    CellColors { fg: fr, bg: br, adjust_contrast: adjust }
}

/// How the cursor is drawn.
#[derive(Clone, Copy, Debug)]
pub struct CursorColors<C> {
    /// The cursor's colour.
    pub cursor: ResolvedColor<C>,
    /// The colour of the character drawn inside a block cursor.
    pub text: C,
    /// The cursor is drawn as a hollow block.
    pub hollow: bool,
}

/// The cursor takes the colour the application set (OSC 12), else the
/// bright foreground when focused and the dim foreground when not; text
/// inside it takes the background when focused; an unfocused cursor is a
/// hollow block.
pub open spec fn spec_cursor_colors<C>(osc_color: Option<Rgb>, focused: bool, tc: TerminalColors<C>) -> CursorColors<C> {
    CursorColors {
        cursor: match osc_color {
            Some(rgb) => ResolvedColor::Rgb(rgb),
            None => ResolvedColor::Theme(if focused { tc.bright_foreground } else { tc.dim_foreground }),
        },
        text: if focused { tc.background } else { tc.bright_foreground },
        hollow: !focused,
    }
}

/// Colours and style of the cursor.
pub fn cursor_colors<C: Copy>(osc_color: Option<Rgb>, focused: bool, tc: &TerminalColors<C>) -> (r:
    CursorColors<C>)
    ensures
        r == spec_cursor_colors(osc_color, focused, *tc),
{
    let cursor = match osc_color {
        Some(rgb) => ResolvedColor::Rgb(rgb),
        None => ResolvedColor::Theme(if focused { tc.bright_foreground } else { tc.dim_foreground }),
    };
    let text = if focused { tc.background } else { tc.bright_foreground };
    CursorColors { cursor, text, hollow: !focused }
}

} // verus!
