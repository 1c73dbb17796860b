use gpui_term::colors::{
    cell_colors, cell_fg, color_cube, cube_value, cursor_colors, gray_ramp, indexed_to_rgb,
    is_explicit_color, named_hsla, Color, NamedColor, ResolvedColor, Rgb, TerminalColors,
};

fn rgb(r: u8, g: u8, b: u8) -> Rgb {
    Rgb { r, g, b }
}

fn palette() -> TerminalColors<u32> {
    TerminalColors {
        background: 1, foreground: 2, bright_foreground: 3, dim_foreground: 4,
        black: 10, red: 11, green: 12, yellow: 13, blue: 14, magenta: 15, cyan: 16, white: 17,
        bright_black: 20, bright_red: 21, bright_green: 22, bright_yellow: 23, bright_blue: 24,
        bright_magenta: 25, bright_cyan: 26, bright_white: 27,
        dim_black: 30, dim_red: 31, dim_green: 32, dim_yellow: 33, dim_blue: 34, dim_magenta: 35,
        dim_cyan: 36, dim_white: 37,
    }
}

#[test]
fn palette_table() {
    assert_eq!(indexed_to_rgb(1), rgb(205, 0, 0));
    assert_eq!(indexed_to_rgb(12), rgb(92, 92, 255));
    assert_eq!(indexed_to_rgb(16), rgb(0, 0, 0));
    assert_eq!(indexed_to_rgb(21), rgb(0, 0, 255));
    assert_eq!(indexed_to_rgb(196), rgb(255, 0, 0));
    assert_eq!(indexed_to_rgb(231), rgb(255, 255, 255));
    assert_eq!(indexed_to_rgb(232), rgb(8, 8, 8));
    assert_eq!(indexed_to_rgb(255), rgb(238, 238, 238));
}

#[test]
fn cube_and_ramp() {
    assert_eq!(cube_value(0), 0);
    assert_eq!(cube_value(3), 175);
    assert_eq!(cube_value(9), 0);
    assert_eq!(color_cube(36 * 2 + 6 * 3 + 4), rgb(135, 175, 215));
    assert_eq!(gray_ramp(23), rgb(238, 238, 238));
}

#[test]
fn named_and_explicit() {
    let tc = palette();
    assert_eq!(named_hsla(NamedColor::Cursor, &tc), 3);
    assert_eq!(named_hsla(NamedColor::BrightMagenta, &tc), 25);
    assert_eq!(named_hsla(NamedColor::DimForeground, &tc), 4);
    assert!(is_explicit_color(Color::Indexed(3)));
    assert!(is_explicit_color(Color::Spec(rgb(1, 2, 3))));
    assert!(!is_explicit_color(Color::Named(NamedColor::Red)));
    assert!(matches!(cell_fg(Color::Indexed(9), &tc), ResolvedColor::Rgb(Rgb { r: 255, g: 0, b: 0 })));
    assert!(matches!(cell_fg(Color::Named(NamedColor::Green), &tc), ResolvedColor::Theme(12)));
}

#[test]
fn cell_colour_resolution() {
    let tc = palette();
    let c = cell_colors(Color::Named(NamedColor::Foreground), Color::Named(NamedColor::Background), false, false, &tc);
    assert!(c.fg.is_none() && c.bg.is_none() && !c.adjust_contrast);
    // Inverse swaps: the theme foreground becomes a (resolved) background.
    let c = cell_colors(Color::Named(NamedColor::Red), Color::Named(NamedColor::Blue), true, false, &tc);
    assert!(matches!(c.fg, Some(ResolvedColor::Theme(14))));
    assert!(matches!(c.bg, Some(ResolvedColor::Theme(11))));
    assert!(c.adjust_contrast);
    // Explicit colours and decorative glyphs keep their colours.
    let c = cell_colors(Color::Indexed(1), Color::Named(NamedColor::Blue), false, false, &tc);
    assert!(!c.adjust_contrast);
    let c = cell_colors(Color::Named(NamedColor::Red), Color::Named(NamedColor::Blue), false, true, &tc);
    assert!(!c.adjust_contrast);
}

#[test]
fn cursor_colour_choice() {
    let tc = palette();
    let c = cursor_colors(None, true, &tc);
    assert!(matches!(c.cursor, ResolvedColor::Theme(3)));
    assert_eq!(c.text, 1);
    assert!(!c.hollow);
    let c = cursor_colors(None, false, &tc);
    assert!(matches!(c.cursor, ResolvedColor::Theme(4)));
    assert_eq!(c.text, 3);
    assert!(c.hollow);
    let c = cursor_colors(Some(rgb(1, 2, 3)), true, &tc);
    assert!(matches!(c.cursor, ResolvedColor::Rgb(Rgb { r: 1, g: 2, b: 3 })));
}
