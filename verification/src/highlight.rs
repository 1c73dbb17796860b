//! Selection and search highlights: which viewport lines a grid range
//! covers and the column span highlighted on each.

use vstd::prelude::*;

verus! {

/// A grid position: line (negative in scrollback) and column.
#[derive(Clone, Copy, Debug)]
pub struct GridPoint {
    pub line: i32,
    pub column: usize,
}

/// The columns `start_col..end_col` highlighted on one viewport line.
#[derive(Clone, Copy, Debug)]
pub struct HighlightSpan {
    pub start_col: i32,
    pub end_col: i32,
}

/// `a` comes after `b` in reading order.
pub open spec fn point_after(a: GridPoint, b: GridPoint) -> bool {
    a.line > b.line || (a.line == b.line && a.column > b.column)
}

/// `x` clamped to the `i32` range.
pub open spec fn sat_i32(x: int) -> i32 {
    if x > i32::MAX {
        i32::MAX
    } else if x < i32::MIN {
        i32::MIN
    } else {
        x as i32
    }
}

/// The earlier and the later of two points.
pub open spec fn ordered(start: GridPoint, end: GridPoint) -> (GridPoint, GridPoint) {
    if point_after(start, end) {
        (end, start)
    } else {
        (start, end)
    }
}

/// The scroll offset as an `i32`, saturating.
pub open spec fn offset_i32(display_offset: nat) -> i32 {
    if display_offset > i32::MAX {
        i32::MAX
    } else {
        display_offset as i32
    }
}

/// The highlighted span on viewport line `line` of a range from viewport
/// line `start_line` column `start_col` to line `end_line` column `end_col`.
pub open spec fn line_span(
    line: int,
    first: int,
    last: int,
    start_line: i32,
    start_col: i32,
    end_line: i32,
    end_col: i32,
    num_columns: nat,
    num_lines: nat,
) -> HighlightSpan {
    let l_start: i32 = if line == first && start_line >= 0 {
        start_col
    } else {
        0
    };
    let l_end: i32 = if line == last && end_line <= (num_lines as i32) {
        (end_col + 1) as i32
    } else {
        num_columns as i32
    };
    if l_start > l_end {
        HighlightSpan { start_col: l_end, end_col: l_start }
    } else {
        HighlightSpan { start_col: l_start, end_col: l_end }
    }
}

/// The viewport lines a range covers: the first visible line of the range
/// and the span highlighted on each visible line, or None when the range
/// lies entirely above or below the viewport.
pub open spec fn spec_highlight(
    start: GridPoint,
    end: GridPoint,
    display_offset: nat,
    num_columns: nat,
    num_lines: nat,
) -> Option<(int, Seq<HighlightSpan>)> {
    let (s, e) = ordered(start, end);
    let offset = offset_i32(display_offset);
    let start_line = sat_i32(s.line + offset);
    let start_col = s.column as i32;
    let end_line = sat_i32(e.line + offset);
    let end_col = e.column as i32;
    if end_line < 0 || start_line > (num_lines as i32) {
        None
    } else {
        let first: int = if start_line < 0 { 0 } else { start_line as int };
        let last: int = if end_line < (num_lines as i32) { end_line as int } else { (num_lines as i32) as int };
        let count: nat = if last >= first { (last - first + 1) as nat } else { 0 };
        Some((
            first,
            Seq::new(
                count,
                |k: int|
                    line_span(
                        first + k,
                        first,
                        last,
                        start_line,
                        start_col,
                        end_line,
                        end_col,
                        num_columns,
                        num_lines,
                    ),
            ),
        ))
    }
}

/// The range's end column can be extended by one without overflow.
pub open spec fn end_column_fits(start: GridPoint, end: GridPoint) -> bool {
    (ordered(start, end).1.column as i32) < i32::MAX
}

/// The viewport height taken as an `i32` (wrapping) is not negative, or
/// the range lies outside the viewport; otherwise the line loop would run
/// up to a wrapped, huge last line.
pub open spec fn height_usable(
    start: GridPoint,
    end: GridPoint,
    display_offset: nat,
    num_columns: nat,
    num_lines: nat,
) -> bool {
    (num_lines as i32) >= 0 || spec_highlight(start, end, display_offset, num_columns, num_lines) is None
}

/// Convert a grid range to viewport-relative highlighted lines.
///
/// `display_offset` is the current scroll position in lines; `num_columns`
/// and `num_lines` are the viewport size. Returns the first visible line
/// and the column span of every visible line of the range.
pub fn to_highlighted_range_lines(
    start: GridPoint,
    end: GridPoint,
    display_offset: usize,
    num_columns: usize,
    num_lines: usize,
) -> (r: Option<(usize, Vec<HighlightSpan>)>)
    requires
        end_column_fits(start, end),
        height_usable(start, end, display_offset as nat, num_columns as nat, num_lines as nat),
    ensures
        match spec_highlight(start, end, display_offset as nat, num_columns as nat, num_lines as nat) {
            None => r is None,
            Some((first, spans)) => r matches Some((f, v)) && f as int == first && v@ == spans,
        },
{
    let (norm_start, norm_end) = if start.line > end.line || (start.line == end.line && start.column
        > end.column) {
        (end, start)
    } else {
        (start, end)
    };
    let offset: i32 = if display_offset > 2147483647 {
        i32::MAX
    } else {
        display_offset as i32
    };
    let sl: i64 = norm_start.line as i64 + offset as i64;
    let start_line: i32 = if sl > 2147483647 {
        i32::MAX
    } else if sl < -2147483648 {
        i32::MIN
    } else {
        sl as i32
    };
    let start_col = norm_start.column as i32;
    let el: i64 = norm_end.line as i64 + offset as i64;
    let end_line: i32 = if el > 2147483647 {
        i32::MAX
    } else if el < -2147483648 {
        i32::MIN
    } else {
        el as i32
    };
    let end_col = norm_end.column as i32;
    let nl = num_lines as i32;
    if end_line < 0 || start_line > nl {
        return None;
    }
    assert(nl >= 0);
    let clamped_start: usize = if start_line < 0 { 0 } else { start_line as usize };
    let clamped_end: usize = if end_line < nl { end_line as usize } else { nl as usize };
    let ghost first: int = clamped_start as int;
    let ghost last: int = clamped_end as int;
    let ghost count: nat = if last >= first { (last - first + 1) as nat } else { 0 };
    let ghost spans = Seq::new(
        count,
        |k: int|
            line_span(
                first + k,
                first,
                last,
                start_line,
                start_col,
                end_line,
                end_col,
                num_columns as nat,
                num_lines as nat,
            ),
    );
    let mut lines: Vec<HighlightSpan> = Vec::new();
    if clamped_start <= clamped_end {
        let mut line: usize = clamped_start;
        while line <= clamped_end
            invariant
                clamped_start <= line <= clamped_end + 1,
                clamped_end < usize::MAX,
                lines@ == spans.take(line - clamped_start),
                count == clamped_end - clamped_start + 1,
                (end_col as int) < i32::MAX,
                nl == num_lines as i32,
                nl >= 0,
                first == clamped_start,
                last == clamped_end,
                spans == Seq::new(
                    count,
                    |k: int|
                        line_span(
                            first + k,
                            first,
                            last,
                            start_line,
                            start_col,
                            end_line,
                            end_col,
                            num_columns as nat,
                            num_lines as nat,
                        ),
                ),
            decreases clamped_end + 1 - line,
        {
            let mut l_start: i32 = 0;
            let mut l_end: i32 = num_columns as i32;
            if line == clamped_start && start_line >= 0 {
                l_start = start_col;
            }
            if line == clamped_end && end_line <= nl {
                l_end = end_col + 1;
            }
            let span = if l_start > l_end {
                HighlightSpan { start_col: l_end, end_col: l_start }
            } else {
                HighlightSpan { start_col: l_start, end_col: l_end }
            };
            assert(spans[line - clamped_start] == span);
            lines.push(span);
            line = line + 1;
            assert(lines@ =~= spans.take(line - clamped_start));
        }
        assert(spans.take(count as int) =~= spans);
    } else {
        assert(spans =~= Seq::<HighlightSpan>::empty());
    }
    Some((clamped_start, lines))
}

/// A range lying wholly inside the viewport (its lines shifted by the
/// scroll offset), given in reading order with columns inside the grid,
/// highlights one span per line from its first line: on a single line the
/// columns `start..=end`; otherwise the first line from the start column
/// to the line's end, each middle line whole, and the last line from
/// column 0 through the end column.
pub proof fn law_visible_range_spans(
    start: GridPoint,
    end: GridPoint,
    display_offset: nat,
    num_columns: nat,
    num_lines: nat,
)
    requires
        !point_after(start, end),
        display_offset <= i32::MAX,
        num_columns <= i32::MAX,
        num_lines <= i32::MAX,
        start.column < num_columns,
        end.column < num_columns,
        0 <= start.line + display_offset,
        end.line + display_offset < num_lines,
    ensures
        ({
            let a = start.line + display_offset;
            let b = end.line + display_offset;
            &&& spec_highlight(start, end, display_offset, num_columns, num_lines) matches Some((first, spans))
            &&& first == a
            &&& spans.len() == b - a + 1
            &&& a == b ==> spans[0] == (HighlightSpan {
                start_col: start.column as i32,
                end_col: (end.column + 1) as i32,
            })
            &&& a < b ==> spans[0] == (HighlightSpan {
                start_col: start.column as i32,
                end_col: num_columns as i32,
            })
            &&& a < b ==> spans[b - a] == (HighlightSpan { start_col: 0, end_col: (end.column + 1) as i32 })
            &&& forall|k: int|
                0 < k < b - a ==> #[trigger] spans[k] == (HighlightSpan { start_col: 0, end_col: num_columns as i32 })
        }),
{
}

} // verus!
