use gpui_term::painter::{
    background_rects, collect_background_regions, merge_background_regions, regions_to_rects,
    BackgroundRegion, ColorKey, LayoutPoint,
};
use gpui_term::runs::{batch_text_runs, CellGlyph};

fn key(h: f32, s: f32, l: f32, a: f32) -> ColorKey {
    ColorKey { h: h.to_bits(), s: s.to_bits(), l: l.to_bits(), a: a.to_bits() }
}

fn default_color() -> ColorKey {
    key(0.0, 0.0, 0.0, 0.0)
}

fn make_region(line: i32, col_start: i32, col_end: i32) -> BackgroundRegion {
    BackgroundRegion {
        start_line: line,
        start_col: col_start,
        end_line: line,
        end_col: col_end,
        color: default_color(),
    }
}

#[test]
fn merge_three_adjacent_horizontal() {
    let regions = vec![make_region(0, 0, 2), make_region(0, 3, 5), make_region(0, 6, 8)];
    let result = merge_background_regions(regions);
    assert_eq!(result.len(), 1);
    assert_eq!(result[0].start_line, 0);
    assert_eq!(result[0].end_col, 8);
}

#[test]
fn merge_different_colors_no_merge() {
    let r1 = BackgroundRegion {
        start_line: 0,
        start_col: 0,
        end_line: 0,
        end_col: 2,
        color: default_color(),
    };
    let r2 = BackgroundRegion {
        start_line: 0,
        start_col: 3,
        end_line: 0,
        end_col: 5,
        color: key(0.5, 0.5, 0.5, 1.0),
    };
    let result = merge_background_regions(vec![r1, r2]);
    assert_eq!(result.len(), 2);
}

#[test]
fn merge_vertical_same_span() {
    let regions = vec![make_region(0, 2, 5), make_region(1, 2, 5), make_region(2, 2, 5)];
    let result = merge_background_regions(regions);
    assert_eq!(result.len(), 1);
    assert_eq!(result[0].start_line, 0);
    assert_eq!(result[0].end_line, 2);
}

#[test]
fn empty_regions() {
    assert!(merge_background_regions(vec![]).is_empty());
}

#[test]
fn merge_sorts_before_joining() {
    // Out of order on one line: sorting by column lets all three join.
    let regions = vec![make_region(0, 6, 8), make_region(0, 0, 2), make_region(0, 3, 5)];
    let result = merge_background_regions(regions);
    assert_eq!(result.len(), 1);
    assert_eq!(result[0].start_col, 0);
    assert_eq!(result[0].end_col, 8);
}

#[test]
fn merge_keeps_gaps_and_colour_order() {
    let red = key(0.0, 1.0, 0.5, 1.0);
    let blue = key(0.6, 1.0, 0.5, 1.0);
    let regions = vec![
        BackgroundRegion { start_line: 0, start_col: 0, end_line: 0, end_col: 1, color: red },
        BackgroundRegion { start_line: 0, start_col: 2, end_line: 0, end_col: 2, color: blue },
        BackgroundRegion { start_line: 0, start_col: 4, end_line: 0, end_col: 5, color: red },
    ];
    let result = merge_background_regions(regions);
    assert_eq!(result.len(), 3);
    // Red first (first colour seen), with the gap at column 3 kept.
    assert_eq!(result[0].color, red);
    assert_eq!((result[0].start_col, result[0].end_col), (0, 1));
    assert_eq!(result[1].color, red);
    assert_eq!((result[1].start_col, result[1].end_col), (4, 5));
    assert_eq!(result[2].color, blue);
}

#[test]
fn merge_vertical_needs_adjacent_lines() {
    let regions = vec![make_region(0, 2, 5), make_region(2, 2, 5)];
    let result = merge_background_regions(regions);
    assert_eq!(result.len(), 2);
}

#[test]
fn collect_joins_cells_on_a_line() {
    let c = key(0.1, 0.2, 0.3, 1.0);
    // 2 rows x 3 columns; the last cell of row 0 and first of row 1 do not join.
    let bgs = vec![Some(c), Some(c), Some(c), Some(c), None, Some(c)];
    let regions = collect_background_regions(&bgs, 3, 2);
    assert_eq!(regions.len(), 3);
    assert_eq!((regions[0].start_line, regions[0].start_col, regions[0].end_col), (0, 0, 2));
    assert_eq!((regions[1].start_line, regions[1].start_col, regions[1].end_col), (1, 0, 0));
    assert_eq!((regions[2].start_line, regions[2].start_col, regions[2].end_col), (1, 2, 2));
}

#[test]
fn collect_ignores_rows_past_the_viewport() {
    let c = key(0.1, 0.2, 0.3, 1.0);
    let bgs = vec![None, None, Some(c), Some(c)];
    let regions = collect_background_regions(&bgs, 2, 1);
    assert!(regions.is_empty());
}

#[test]
fn rects_one_per_line() {
    let r = BackgroundRegion {
        start_line: 1,
        start_col: 2,
        end_line: 3,
        end_col: 4,
        color: default_color(),
    };
    let rects = regions_to_rects(&vec![r]);
    assert_eq!(rects.len(), 3);
    for (i, rect) in rects.iter().enumerate() {
        assert_eq!(rect.point.line, 1 + i as i32);
        assert_eq!(rect.point.column, 2);
        assert_eq!(rect.num_of_cells, 3);
    }
}

#[test]
fn background_rects_merge_a_block() {
    let c = key(0.3, 0.3, 0.3, 1.0);
    // A 2x2 block in the middle of a 3x4 grid.
    let mut bgs = vec![None; 12];
    bgs[1] = Some(c);
    bgs[2] = Some(c);
    bgs[5] = Some(c);
    bgs[6] = Some(c);
    let rects = background_rects(&bgs, 4, 3);
    assert_eq!(rects.len(), 2);
    assert_eq!((rects[0].point.line, rects[0].point.column, rects[0].num_of_cells), (0, 1, 2));
    assert_eq!((rects[1].point.line, rects[1].point.column, rects[1].num_of_cells), (1, 1, 2));
}

#[test]
fn layout_point_new() {
    let p = LayoutPoint::new(3, -2);
    assert_eq!(p.line, 3);
    assert_eq!(p.column, -2);
}

fn glyph(ch: Option<char>, style: u64) -> CellGlyph {
    CellGlyph { ch, style }
}

#[test]
fn batch_runs_join_same_style_cells() {
    // Two lines of four columns: "ab" in style 1 then "c" in style 2, a
    // hidden cell, then "de" on the second line.
    let cells = vec![
        glyph(Some('a'), 1),
        glyph(Some('b'), 1),
        glyph(Some('c'), 2),
        glyph(None, 0),
        glyph(Some('d'), 1),
        glyph(Some('e'), 1),
        glyph(None, 0),
        glyph(Some('f'), 1),
    ];
    let runs = batch_text_runs(&cells, 4, 2);
    assert_eq!(runs.len(), 4);
    assert_eq!((runs[0].start.line, runs[0].start.column), (0, 0));
    assert_eq!(runs[0].text, vec!['a', 'b']);
    assert_eq!(runs[0].cell_count, 2);
    assert_eq!(runs[0].style, 1);
    assert_eq!((runs[1].start.line, runs[1].start.column), (0, 2));
    assert_eq!(runs[1].text, vec!['c']);
    assert_eq!(runs[1].style, 2);
    // A new line starts a new run even in the same style.
    assert_eq!((runs[2].start.line, runs[2].start.column), (1, 0));
    assert_eq!(runs[2].text, vec!['d', 'e']);
    // A gap (a cell that paints nothing) breaks the run.
    assert_eq!((runs[3].start.line, runs[3].start.column), (1, 3));
    assert_eq!(runs[3].text, vec!['f']);
}

#[test]
fn batch_runs_skip_lines_past_viewport() {
    let cells = vec![glyph(Some('x'), 0), glyph(Some('y'), 0), glyph(Some('z'), 0)];
    let runs = batch_text_runs(&cells, 1, 2);
    assert_eq!(runs.len(), 2);
    assert_eq!(runs[0].text, vec!['x']);
    assert_eq!(runs[1].text, vec!['y']);
    assert_eq!((runs[1].start.line, runs[1].start.column), (1, 0));
    assert!(batch_text_runs(&Vec::new(), 3, 3).is_empty());
}

#[test]
fn background_rects_stay_in_grid_and_never_grow() {
    let a = key(0.1, 0.2, 0.3, 1.0);
    let b = key(0.5, 0.5, 0.5, 1.0);
    // 3 columns, 3 lines shown, a fourth line past the viewport.
    let bgs = vec![
        Some(a), Some(a), Some(b),
        Some(a), Some(a), None,
        None, Some(b), Some(b),
        Some(a), Some(a), Some(a),
    ];
    let regions = collect_background_regions(&bgs, 3, 3);
    let merged = merge_background_regions(regions.clone());
    assert!(merged.len() <= regions.len());
    let rects = background_rects(&bgs, 3, 3);
    let mut painted = 0;
    for r in &rects {
        assert!(r.num_of_cells >= 1);
        assert!(0 <= r.point.line && r.point.line < 3);
        assert!(0 <= r.point.column && r.point.column as usize + r.num_of_cells <= 3);
        painted += r.num_of_cells;
    }
    // Exactly the seven visible coloured cells are painted.
    assert_eq!(painted, 7);
}
