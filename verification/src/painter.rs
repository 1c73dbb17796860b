//! Background painting: collecting per-cell background colours into
//! regions, merging regions in two dimensions to minimise paint calls, and
//! expanding regions into single-line rectangles.

use vstd::prelude::*;

verus! {

// =========================================================================
// Layout types
// =========================================================================

/// A position in terminal grid coordinates (line, column).
#[derive(Clone, Copy, Debug)]
pub struct LayoutPoint {
    pub line: i32,
    pub column: i32,
}

impl LayoutPoint {
    /// The point at `line`, `column`.
    pub fn new(line: i32, column: i32) -> (p: LayoutPoint)
        ensures
            p.line == line,
            p.column == column,
    {
        LayoutPoint { line, column }
    }
}

/// The exact bit patterns of a colour's hue, saturation, lightness and
/// alpha: two colours are the same colour when their keys are equal.
#[derive(Clone, Copy, Debug, PartialEq, Eq, Structural)]
pub struct ColorKey {
    pub h: u32,
    pub s: u32,
    pub l: u32,
    pub a: u32,
}

/// A single-line background rectangle to paint.
#[derive(Clone, Copy, Debug)]
pub struct LayoutRect {
    pub point: LayoutPoint,
    pub num_of_cells: usize,
    pub color: ColorKey,
}

impl LayoutRect {
    /// A rectangle of `num_of_cells` cells starting at `point`.
    pub fn new(point: LayoutPoint, num_of_cells: usize, color: ColorKey) -> (r: LayoutRect)
        ensures
            r.point == point,
            r.num_of_cells == num_of_cells,
            r.color == color,
    {
        LayoutRect { point, num_of_cells, color }
    }
}

/// A possibly multi-line rectangle of cells sharing a background colour:
/// lines `start_line..=end_line`, columns `start_col..=end_col`.
#[derive(Clone, Copy, Debug)]
pub struct BackgroundRegion {
    pub start_line: i32,
    pub start_col: i32,
    pub end_line: i32,
    pub end_col: i32,
    pub color: ColorKey,
}

impl BackgroundRegion {
    /// The one-cell region at `line`, `col`.
    pub fn new(line: i32, col: i32, color: ColorKey) -> (r: BackgroundRegion)
        ensures
            r == single_cell(line, col, color),
    {
        BackgroundRegion { start_line: line, start_col: col, end_line: line, end_col: col, color }
    }
}

/// The one-cell region at `line`, `col`.
pub open spec fn single_cell(line: i32, col: i32, color: ColorKey) -> BackgroundRegion {
    BackgroundRegion { start_line: line, start_col: col, end_line: line, end_col: col, color }
}

// =========================================================================
// Specification
// =========================================================================

/// The region is a non-empty rectangle.
pub open spec fn wf_region(r: BackgroundRegion) -> bool {
    r.start_line <= r.end_line && r.start_col <= r.end_col
}

/// The region contains cell (`line`, `col`).
pub open spec fn covers(r: BackgroundRegion, line: int, col: int) -> bool {
    r.start_line <= line <= r.end_line && r.start_col <= col <= r.end_col
}

/// Some region of colour `color` contains cell (`line`, `col`).
pub open spec fn painted(rs: Seq<BackgroundRegion>, line: int, col: int, color: ColorKey) -> bool {
    exists|i: int| 0 <= i < rs.len() && rs[i].color == color && covers(#[trigger] rs[i], line, col)
}

/// The colours of `rs` in order of first appearance, each once.
pub open spec fn spec_colors(rs: Seq<BackgroundRegion>) -> Seq<ColorKey>
    decreases rs.len(),
{
    if rs.len() == 0 {
        seq![]
    } else {
        let c = spec_colors(rs.drop_last());
        if c.contains(rs.last().color) {
            c
        } else {
            c.push(rs.last().color)
        }
    }
}

/// The regions of colour `color`, in order.
pub open spec fn spec_group(rs: Seq<BackgroundRegion>, color: ColorKey) -> Seq<BackgroundRegion>
    decreases rs.len(),
{
    if rs.len() == 0 {
        seq![]
    } else if rs.last().color == color {
        spec_group(rs.drop_last(), color).push(rs.last())
    } else {
        spec_group(rs.drop_last(), color)
    }
}

/// `a` comes no later than `b` by (start line, start column).
pub open spec fn pos_le(a: BackgroundRegion, b: BackgroundRegion) -> bool {
    a.start_line < b.start_line || (a.start_line == b.start_line && a.start_col <= b.start_col)
}

/// Insert `x` after every trailing element that comes later than it.
pub open spec fn spec_insert(s: Seq<BackgroundRegion>, x: BackgroundRegion) -> Seq<BackgroundRegion>
    decreases s.len(),
{
    if s.len() == 0 || pos_le(s.last(), x) {
        s.push(x)
    } else {
        spec_insert(s.drop_last(), x).push(s.last())
    }
}

/// Stable sort by (start line, start column).
pub open spec fn spec_sort(s: Seq<BackgroundRegion>) -> Seq<BackgroundRegion>
    decreases s.len(),
{
    if s.len() == 0 {
        s
    } else {
        spec_insert(spec_sort(s.drop_last()), s.last())
    }
}

/// `last` can absorb `r` horizontally: same lines, and `r` starts no
/// later than one column past `last`'s end.
pub open spec fn joins_horizontally(last: BackgroundRegion, r: BackgroundRegion) -> bool {
    last.start_line == r.start_line && last.end_line == r.end_line && last.end_col + 1 >= r.start_col
}

/// Merge each region into its predecessor when they join horizontally.
pub open spec fn spec_horizontal(s: Seq<BackgroundRegion>) -> Seq<BackgroundRegion>
    decreases s.len(),
{
    if s.len() == 0 {
        s
    } else {
        let h = spec_horizontal(s.drop_last());
        let r = s.last();
        if h.len() > 0 && joins_horizontally(h.last(), r) {
            h.update(
                h.len() - 1,
                BackgroundRegion {
                    end_col: if h.last().end_col >= r.end_col {
                        h.last().end_col
                    } else {
                        r.end_col
                    },
                    ..h.last()
                },
            )
        } else {
            h.push(r)
        }
    }
}

/// The index of the last region of `v` spanning columns `a..=b`.
pub open spec fn last_span_index(v: Seq<BackgroundRegion>, a: i32, b: i32) -> Option<int>
    decreases v.len(),
{
    if v.len() == 0 {
        None
    } else if v.last().start_col == a && v.last().end_col == b {
        Some(v.len() - 1)
    } else {
        last_span_index(v.drop_last(), a, b)
    }
}

/// Merge each region into the last earlier region with the same column
/// span when it continues that region on the next line.
pub open spec fn spec_vertical(s: Seq<BackgroundRegion>) -> Seq<BackgroundRegion>
    decreases s.len(),
{
    if s.len() == 0 {
        s
    } else {
        let v = spec_vertical(s.drop_last());
        let r = s.last();
        let k = last_span_index(v, r.start_col, r.end_col);
        if k is Some && v[k->0].end_line + 1 == r.start_line {
            v.update(k->0, BackgroundRegion { end_line: r.end_line, ..v[k->0] })
        } else {
            v.push(r)
        }
    }
}

/// The merge of one colour's regions.
pub open spec fn merge_group(g: Seq<BackgroundRegion>) -> Seq<BackgroundRegion> {
    spec_vertical(spec_horizontal(spec_sort(g)))
}

/// The merged regions of each colour in `colors`, one colour after another.
pub open spec fn merge_colors(rs: Seq<BackgroundRegion>, colors: Seq<ColorKey>) -> Seq<BackgroundRegion>
    decreases colors.len(),
{
    if colors.len() == 0 {
        seq![]
    } else {
        merge_colors(rs, colors.drop_last()) + merge_group(spec_group(rs, colors.last()))
    }
}

/// Two-dimensional merge: regions grouped by colour (colours in order of
/// first appearance), each group sorted by position, merged horizontally
/// and then vertically.
pub open spec fn spec_merge(rs: Seq<BackgroundRegion>) -> Seq<BackgroundRegion> {
    merge_colors(rs, spec_colors(rs))
}

// =========================================================================
// Implementation
// =========================================================================

fn contains_color(v: &Vec<ColorKey>, c: ColorKey) -> (r: bool)
    ensures
        r == v@.contains(c),
{
    let mut i: usize = 0;
    while i < v.len()
        invariant
            i <= v@.len(),
            forall|j: int| 0 <= j < i ==> v@[j] != c,
        decreases v@.len() - i,
    {
        if v[i] == c {
            return true;
        }
        i = i + 1;
    }
    false
}

fn region_colors(rs: &Vec<BackgroundRegion>) -> (r: Vec<ColorKey>)
    ensures
        r@ == spec_colors(rs@),
{
    let mut out: Vec<ColorKey> = Vec::new();
    let mut i: usize = 0;
    while i < rs.len()
        invariant
            i <= rs@.len(),
            out@ == spec_colors(rs@.take(i as int)),
        decreases rs@.len() - i,
    {
        let c = rs[i].color;
        assert(rs@.take(i + 1).drop_last() == rs@.take(i as int));
        if !contains_color(&out, c) {
            out.push(c);
        }
        i = i + 1;
    }
    assert(rs@.take(rs@.len() as int) == rs@);
    out
}

fn color_group(rs: &Vec<BackgroundRegion>, c: ColorKey) -> (r: Vec<BackgroundRegion>)
    ensures
        r@ == spec_group(rs@, c),
{
    let mut out: Vec<BackgroundRegion> = Vec::new();
    let mut i: usize = 0;
    while i < rs.len()
        invariant
            i <= rs@.len(),
            out@ == spec_group(rs@.take(i as int), c),
        decreases rs@.len() - i,
    {
        let r = rs[i];
        assert(rs@.take(i + 1).drop_last() == rs@.take(i as int));
        if r.color == c {
            out.push(r);
        }
        i = i + 1;
    }
    assert(rs@.take(rs@.len() as int) == rs@);
    out
}

fn position_le(a: &BackgroundRegion, b: &BackgroundRegion) -> (r: bool)
    ensures
        r == pos_le(*a, *b),
{
    a.start_line < b.start_line || (a.start_line == b.start_line && a.start_col <= b.start_col)
}

/// Inserting at the first index past which every element comes later
/// than `x` is `spec_insert`.
proof fn lemma_insert_at(s: Seq<BackgroundRegion>, x: BackgroundRegion, j: int)
    requires
        0 <= j <= s.len(),
        forall|k: int| j <= k < s.len() ==> !pos_le(#[trigger] s[k], x),
        j == 0 || pos_le(s[j - 1], x),
    ensures
        spec_insert(s, x) == s.insert(j, x),
    decreases s.len(),
{
    if s.len() == 0 {
        assert(s.insert(j, x) =~= s.push(x));
    } else if pos_le(s.last(), x) {
        assert(j == s.len());
        assert(s.insert(j, x) =~= s.push(x));
    } else {
        assert(j < s.len());
        let t = s.drop_last();
        assert forall|k: int| j <= k < t.len() implies !pos_le(#[trigger] t[k], x) by {
            assert(t[k] == s[k]);
        }
        if j > 0 {
            assert(t[j - 1] == s[j - 1]);
        }
        lemma_insert_at(t, x, j);
        assert(s.insert(j, x) =~= t.insert(j, x).push(s.last()));
    }
}

/// Stable insertion sort by (start line, start column).
fn sort_by_position(v: &Vec<BackgroundRegion>) -> (r: Vec<BackgroundRegion>)
    ensures
        r@ == spec_sort(v@),
{
    let mut out: Vec<BackgroundRegion> = Vec::new();
    let mut i: usize = 0;
    while i < v.len()
        invariant
            i <= v@.len(),
            out@ == spec_sort(v@.take(i as int)),
        decreases v@.len() - i,
    {
        let x = v[i];
        let mut j: usize = out.len();
        while j > 0 && !position_le(&out[j - 1], &x)
            invariant
                j <= out@.len(),
                forall|k: int| j <= k < out@.len() ==> !pos_le(#[trigger] out@[k], x),
            decreases j,
        {
            j = j - 1;
        }
        proof {
            lemma_insert_at(out@, x, j as int);
            assert(v@.take(i + 1).drop_last() == v@.take(i as int));
            assert(v@.take(i + 1).last() == x);
        }
        out.insert(j, x);
        i = i + 1;
    }
    assert(v@.take(v@.len() as int) == v@);
    out
}

/// Horizontal merge pass.
fn merge_horizontal(s: &Vec<BackgroundRegion>) -> (r: Vec<BackgroundRegion>)
    ensures
        r@ == spec_horizontal(s@),
{
    let mut h: Vec<BackgroundRegion> = Vec::new();
    let mut i: usize = 0;
    while i < s.len()
        invariant
            i <= s@.len(),
            h@ == spec_horizontal(s@.take(i as int)),
        decreases s@.len() - i,
    {
        let r = s[i];
        assert(s@.take(i + 1).drop_last() == s@.take(i as int));
        assert(s@.take(i + 1).last() == r);
        let n = h.len();
        let mut merged = false;
        if n > 0 {
            let last = h[n - 1];
            if last.start_line == r.start_line && last.end_line == r.end_line && (last.end_col as i64)
                + 1 >= r.start_col as i64 {
                let end_col = if last.end_col >= r.end_col {
                    last.end_col
                } else {
                    r.end_col
                };
                h.set(n - 1, BackgroundRegion { end_col, ..last });
                merged = true;
            }
        }
        if !merged {
            h.push(r);
        }
        i = i + 1;
    }
    assert(s@.take(s@.len() as int) == s@);
    h
}

/// The index found by `last_span_index` is in range and has the span.
proof fn lemma_last_span_index(v: Seq<BackgroundRegion>, a: i32, b: i32)
    ensures
        last_span_index(v, a, b) matches Some(k) ==> 0 <= k < v.len() && v[k].start_col == a
            && v[k].end_col == b,
    decreases v.len(),
{
    if v.len() > 0 {
        lemma_last_span_index(v.drop_last(), a, b);
    }
}

fn find_last_span(v: &Vec<BackgroundRegion>, a: i32, b: i32) -> (r: Option<usize>)
    ensures
        r matches Some(k) ==> last_span_index(v@, a, b) == Some(k as int) && k < v@.len(),
        r is None ==> last_span_index(v@, a, b) is None,
{
    proof {
        lemma_last_span_index(v@, a, b);
    }
    let mut j: usize = v.len();
    assert(v@.take(j as int) == v@);
    while j > 0
        invariant
            j <= v@.len(),
            last_span_index(v@, a, b) == last_span_index(v@.take(j as int), a, b),
        decreases j,
    {
        let t = v[j - 1];
        assert(v@.take(j as int).drop_last() == v@.take(j - 1));
        if t.start_col == a && t.end_col == b {
            return Some(j - 1);
        }
        j = j - 1;
    }
    None
}

/// Vertical merge pass.
fn merge_vertical(s: &Vec<BackgroundRegion>) -> (r: Vec<BackgroundRegion>)
    ensures
        r@ == spec_vertical(s@),
{
    let mut v: Vec<BackgroundRegion> = Vec::new();
    let mut i: usize = 0;
    while i < s.len()
        invariant
            i <= s@.len(),
            v@ == spec_vertical(s@.take(i as int)),
        decreases s@.len() - i,
    {
        let r = s[i];
        assert(s@.take(i + 1).drop_last() == s@.take(i as int));
        assert(s@.take(i + 1).last() == r);
        let mut merged = false;
        match find_last_span(&v, r.start_col, r.end_col) {
            Some(k) => {
                let prev = v[k];
                if (prev.end_line as i64) + 1 == r.start_line as i64 {
                    v.set(k, BackgroundRegion { end_line: r.end_line, ..prev });
                    merged = true;
                }
            },
            None => {},
        }
        if !merged {
            v.push(r);
        }
        i = i + 1;
    }
    assert(s@.take(s@.len() as int) == s@);
    v
}

/// Merge regions in two dimensions to minimise paint calls.
///
/// Regions are grouped by colour; within a group they are sorted by
/// position, merged horizontally on identical lines, then vertically when
/// the same column span continues on the next line. Groups follow the
/// order in which their colours first appear.
pub fn merge_background_regions(regions: Vec<BackgroundRegion>) -> (r: Vec<BackgroundRegion>)
    ensures
        r@ == spec_merge(regions@),
{
    let colors = region_colors(&regions);
    let mut result: Vec<BackgroundRegion> = Vec::new();
    let mut i: usize = 0;
    while i < colors.len()
        invariant
            i <= colors@.len(),
            colors@ == spec_colors(regions@),
            result@ == merge_colors(regions@, colors@.take(i as int)),
        decreases colors@.len() - i,
    {
        let c = colors[i];
        let group = color_group(&regions, c);
        let sorted = sort_by_position(&group);
        let horiz = merge_horizontal(&sorted);
        let vert = merge_vertical(&horiz);
        let mut j: usize = 0;
        let ghost before = result@;
        while j < vert.len()
            invariant
                j <= vert@.len(),
                result@ == before + vert@.take(j as int),
            decreases vert@.len() - j,
        {
            result.push(vert[j]);
            j = j + 1;
            assert(result@ =~= before + vert@.take(j as int));
        }
        assert(vert@.take(vert@.len() as int) == vert@);
        assert(colors@.take(i + 1).drop_last() == colors@.take(i as int));
        assert(colors@.take(i + 1).last() == c);
        i = i + 1;
    }
    assert(colors@.take(colors@.len() as int) == colors@);
    result
}

// =========================================================================
// Collecting and expanding regions
// =========================================================================

/// Background regions of a row-major grid of cell backgrounds (`None` for
/// the default background), merging each cell into the region before it
/// when that region ends just left of it on the same line in the same
/// colour. Cells past `rows` lines are ignored.
pub open spec fn spec_collect(bgs: Seq<Option<ColorKey>>, cols: nat, rows: nat) -> Seq<BackgroundRegion>
    decreases bgs.len(),
{
    if bgs.len() == 0 || cols == 0 {
        seq![]
    } else {
        let prev = spec_collect(bgs.drop_last(), cols, rows);
        let idx = bgs.len() - 1;
        let l = idx / (cols as int);
        let c = idx % (cols as int);
        if l >= rows || bgs.last() is None {
            prev
        } else {
            let color = bgs.last()->0;
            let line = l as i32;
            let col = c as i32;
            if prev.len() > 0 && prev.last().color == color && prev.last().start_line == line
                && prev.last().end_line == line && prev.last().end_col + 1 == col {
                prev.update(prev.len() - 1, BackgroundRegion { end_col: col, ..prev.last() })
            } else {
                prev.push(single_cell(line, col, color))
            }
        }
    }
}

/// Number of lines a region spans.
pub open spec fn region_height(r: BackgroundRegion) -> nat {
    if r.end_line >= r.start_line {
        (r.end_line - r.start_line + 1) as nat
    } else {
        0
    }
}

/// One single-line rectangle per line of a region.
pub open spec fn region_rects(r: BackgroundRegion) -> Seq<LayoutRect> {
    Seq::new(
        region_height(r),
        |k: int|
            LayoutRect {
                point: LayoutPoint { line: (r.start_line + k) as i32, column: r.start_col },
                num_of_cells: (r.end_col - r.start_col + 1) as usize,
                color: r.color,
            },
    )
}

/// The rectangles of all regions, region by region.
pub open spec fn spec_rects(rs: Seq<BackgroundRegion>) -> Seq<LayoutRect>
    decreases rs.len(),
{
    if rs.len() == 0 {
        seq![]
    } else {
        spec_rects(rs.drop_last()) + region_rects(rs.last())
    }
}

/// Collect background regions from the cell backgrounds of a grid with
/// `cols` columns and `rows` lines, laid out row by row.
pub fn collect_background_regions(bgs: &Vec<Option<ColorKey>>, cols: usize, rows: usize) -> (r: Vec<
    BackgroundRegion,
>)
    requires
        cols > 0,
    ensures
        r@ == spec_collect(bgs@, cols as nat, rows as nat),
{
    let mut out: Vec<BackgroundRegion> = Vec::new();
    let mut idx: usize = 0;
    while idx < bgs.len()
        invariant
            cols > 0,
            idx <= bgs@.len(),
            out@ == spec_collect(bgs@.take(idx as int), cols as nat, rows as nat),
        decreases bgs@.len() - idx,
    {
        let l = idx / cols;
        let c = idx % cols;
        assert(bgs@.take(idx + 1).drop_last() == bgs@.take(idx as int));
        assert(bgs@.take(idx + 1).last() == bgs@[idx as int]);
        if l < rows {
            if let Some(color) = bgs[idx] {
                let line = l as i32;
                let col = c as i32;
                let n = out.len();
                let mut merged = false;
                if n > 0 {
                    let last = out[n - 1];
                    if last.color == color && last.start_line == line && last.end_line == line
                        && (last.end_col as i64) + 1 == col as i64 {
                        out.set(n - 1, BackgroundRegion { end_col: col, ..last });
                        merged = true;
                    }
                }
                if !merged {
                    out.push(BackgroundRegion::new(line, col, color));
                }
            }
        }
        idx = idx + 1;
    }
    assert(bgs@.take(bgs@.len() as int) == bgs@);
    out
}

/// Expand regions into single-line rectangles: one per line of each
/// region, `end_col - start_col + 1` cells wide.
pub fn regions_to_rects(regions: &Vec<BackgroundRegion>) -> (r: Vec<LayoutRect>)
    ensures
        r@ == spec_rects(regions@),
{
    let mut rects: Vec<LayoutRect> = Vec::new();
    let mut i: usize = 0;
    while i < regions.len()
        invariant
            i <= regions@.len(),
            rects@ == spec_rects(regions@.take(i as int)),
        decreases regions@.len() - i,
    {
        let region = regions[i];
        let ghost before = rects@;
        let width: usize = ((region.end_col as i64) - (region.start_col as i64) + 1) as usize;
        let mut line: i64 = region.start_line as i64;
        while line <= region.end_line as i64
            invariant
                region == regions@[i as int],
                width == (region.end_col - region.start_col + 1) as usize,
                region.start_line <= line <= region.start_line + region_height(region),
                rects@ == before + region_rects(region).take(line - region.start_line),
            decreases region.end_line + 1 - line,
        {
            rects.push(LayoutRect::new(LayoutPoint::new(line as i32, region.start_col), width, region.color));
            line = line + 1;
            assert(rects@ =~= before + region_rects(region).take(line - region.start_line));
        }
        assert(line - region.start_line == region_height(region));
        assert(region_rects(region).take(region_height(region) as int) == region_rects(region));
        assert(regions@.take(i + 1).drop_last() == regions@.take(i as int));
        assert(regions@.take(i + 1).last() == region);
        i = i + 1;
    }
    assert(regions@.take(regions@.len() as int) == regions@);
    rects
}

/// The background rectangles of a grid of cell backgrounds: regions are
/// collected, merged in two dimensions and expanded into rectangles.
pub fn background_rects(bgs: &Vec<Option<ColorKey>>, cols: usize, rows: usize) -> (r: Vec<LayoutRect>)
    requires
        cols > 0,
    ensures
        r@ == spec_rects(spec_merge(spec_collect(bgs@, cols as nat, rows as nat))),
{
    let regions = collect_background_regions(bgs, cols, rows);
    let merged = merge_background_regions(regions);
    regions_to_rects(&merged)
}

// =========================================================================
// Laws
// =========================================================================

/// Some region of `s` contains cell (`line`, `col`), whatever its colour.
pub open spec fn covered(s: Seq<BackgroundRegion>, line: int, col: int) -> bool {
    exists|i: int| 0 <= i < s.len() && #[trigger] covers(s[i], line, col)
}

/// Every region of `s` is a non-empty rectangle.
pub open spec fn all_wf(s: Seq<BackgroundRegion>) -> bool {
    forall|i: int| 0 <= i < s.len() ==> #[trigger] wf_region(s[i])
}

/// Every region of `s` has colour `g`.
pub open spec fn all_color(s: Seq<BackgroundRegion>, g: ColorKey) -> bool {
    forall|i: int| 0 <= i < s.len() ==> (#[trigger] s[i]).color == g
}

/// `s` is ordered by (start line, start column).
pub open spec fn sorted_pos(s: Seq<BackgroundRegion>) -> bool {
    forall|i: int, j: int| 0 <= i < j < s.len() ==> pos_le(#[trigger] s[i], #[trigger] s[j])
}

proof fn lemma_covered_push(s: Seq<BackgroundRegion>, x: BackgroundRegion, line: int, col: int)
    ensures
        covered(s.push(x), line, col) == (covered(s, line, col) || covers(x, line, col)),
{
    let t = s.push(x);
    if covered(t, line, col) {
        let i = choose|i: int| 0 <= i < t.len() && #[trigger] covers(t[i], line, col);
        if i < s.len() {
            assert(t[i] == s[i]);
        }
    }
    if covered(s, line, col) {
        let i = choose|i: int| 0 <= i < s.len() && #[trigger] covers(s[i], line, col);
        assert(t[i] == s[i]);
    }
    if covers(x, line, col) {
        assert(t[s.len() as int] == x);
    }
}

/// Replacing element `k` by `y` whose cells are those of `s[k]` and `x`.
proof fn lemma_covered_update(
    s: Seq<BackgroundRegion>,
    k: int,
    y: BackgroundRegion,
    x: BackgroundRegion,
    line: int,
    col: int,
)
    requires
        0 <= k < s.len(),
        covers(y, line, col) == (covers(s[k], line, col) || covers(x, line, col)),
    ensures
        covered(s.update(k, y), line, col) == (covered(s, line, col) || covers(x, line, col)),
{
    let t = s.update(k, y);
    if covered(t, line, col) {
        let i = choose|i: int| 0 <= i < t.len() && #[trigger] covers(t[i], line, col);
        if i != k {
            assert(t[i] == s[i]);
        }
    }
    if covered(s, line, col) {
        let i = choose|i: int| 0 <= i < s.len() && #[trigger] covers(s[i], line, col);
        if i != k {
            assert(t[i] == s[i]);
        } else {
            assert(covers(t[k], line, col));
        }
    }
    if covers(x, line, col) {
        assert(covers(t[k], line, col));
    }
}

proof fn lemma_covered_drop_last(s: Seq<BackgroundRegion>, line: int, col: int)
    requires
        s.len() > 0,
    ensures
        covered(s, line, col) == (covered(s.drop_last(), line, col) || covers(s.last(), line, col)),
{
    assert(s == s.drop_last().push(s.last()));
    lemma_covered_push(s.drop_last(), s.last(), line, col);
}

// ---- sort ----

proof fn lemma_insert_props(s: Seq<BackgroundRegion>, x: BackgroundRegion, g: ColorKey)
    ensures
        spec_insert(s, x).len() == s.len() + 1,
        forall|line: int, col: int| #[trigger] covered(spec_insert(s, x), line, col) == (covered(s, line, col)
            || covers(x, line, col)),
        all_wf(s) && wf_region(x) ==> all_wf(spec_insert(s, x)),
        all_color(s, g) && x.color == g ==> all_color(spec_insert(s, x), g),
        sorted_pos(s) ==> sorted_pos(spec_insert(s, x)),
    decreases s.len(),
{
    let t = spec_insert(s, x);
    if s.len() == 0 || pos_le(s.last(), x) {
        assert forall|line: int, col: int| #[trigger] covered(t, line, col) == (covered(s, line, col)
            || covers(x, line, col)) by {
            lemma_covered_push(s, x, line, col);
        }
        if sorted_pos(s) {
            assert forall|i: int, j: int| 0 <= i < j < t.len() implies pos_le(#[trigger] t[i], #[trigger] t[j]) by {
                if j == s.len() {
                    assert(pos_le(s[i], s.last()));
                }
            }
        }
    } else {
        let u = s.drop_last();
        lemma_insert_props(u, x, g);
        let w = spec_insert(u, x);
        assert(t == w.push(s.last()));
        assert forall|line: int, col: int| #[trigger] covered(t, line, col) == (covered(s, line, col)
            || covers(x, line, col)) by {
            lemma_covered_push(w, s.last(), line, col);
            lemma_covered_drop_last(s, line, col);
        }
        if all_wf(s) && wf_region(x) {
            assert(all_wf(u));
            assert forall|i: int| 0 <= i < t.len() implies #[trigger] wf_region(t[i]) by {
                if i < w.len() {
                    assert(t[i] == w[i]);
                }
            }
        }
        if all_color(s, g) && x.color == g {
            assert(all_color(u, g));
            assert forall|i: int| 0 <= i < t.len() implies (#[trigger] t[i]).color == g by {
                if i < w.len() {
                    assert(t[i] == w[i]);
                }
            }
        }
        if sorted_pos(s) {
            assert(sorted_pos(u));
            lemma_insert_members(u, x);
            assert forall|i: int, j: int| 0 <= i < j < t.len() implies pos_le(#[trigger] t[i], #[trigger] t[j]) by {
                if j == w.len() {
                    let a = t[i];
                    assert(a == w[i]);
                    if a == x {
                        assert(!pos_le(s.last(), x));
                    } else {
                        let m = choose|m: int| 0 <= m < u.len() && u[m] == a;
                        assert(pos_le(s[m], s.last()));
                    }
                } else {
                    assert(t[i] == w[i] && t[j] == w[j]);
                }
            }
        }
    }
}

/// Every element of `spec_insert(s, x)` is `x` or an element of `s`.
proof fn lemma_insert_members(s: Seq<BackgroundRegion>, x: BackgroundRegion)
    ensures
        forall|i: int| 0 <= i < spec_insert(s, x).len() ==> (#[trigger] spec_insert(s, x)[i] == x || exists|m: int|
            0 <= m < s.len() && s[m] == spec_insert(s, x)[i]),
        spec_insert(s, x).len() == s.len() + 1,
    decreases s.len(),
{
    let t = spec_insert(s, x);
    if s.len() == 0 || pos_le(s.last(), x) {
        assert forall|i: int| 0 <= i < t.len() implies (#[trigger] t[i] == x || exists|m: int|
            0 <= m < s.len() && s[m] == t[i]) by {
            if i < s.len() {
                assert(s[i] == t[i]);
            }
        }
    } else {
        let u = s.drop_last();
        lemma_insert_members(u, x);
        let w = spec_insert(u, x);
        assert forall|i: int| 0 <= i < t.len() implies (#[trigger] t[i] == x || exists|m: int|
            0 <= m < s.len() && s[m] == t[i]) by {
            if i < w.len() {
                assert(t[i] == w[i]);
                if w[i] != x {
                    let m = choose|m: int| 0 <= m < u.len() && u[m] == w[i];
                    assert(s[m] == u[m]);
                }
            } else {
                assert(t[i] == s[s.len() - 1]);
            }
        }
    }
}

proof fn lemma_sort_props(s: Seq<BackgroundRegion>, g: ColorKey)
    ensures
        spec_sort(s).len() == s.len(),
        forall|line: int, col: int| #[trigger] covered(spec_sort(s), line, col) == covered(s, line, col),
        all_wf(s) ==> all_wf(spec_sort(s)),
        all_color(s, g) ==> all_color(spec_sort(s), g),
        sorted_pos(spec_sort(s)),
    decreases s.len(),
{
    if s.len() > 0 {
        let u = s.drop_last();
        lemma_sort_props(u, g);
        lemma_insert_props(spec_sort(u), s.last(), g);
        assert forall|line: int, col: int| #[trigger] covered(spec_sort(s), line, col) == covered(s, line, col) by {
            lemma_covered_drop_last(s, line, col);
        }
    }
}

// ---- horizontal ----

proof fn lemma_horizontal_props(s: Seq<BackgroundRegion>, g: ColorKey)
    requires
        sorted_pos(s),
        all_wf(s),
        all_color(s, g),
    ensures
        forall|line: int, col: int| #[trigger] covered(spec_horizontal(s), line, col) == covered(s, line, col),
        all_wf(spec_horizontal(s)),
        all_color(spec_horizontal(s), g),
        spec_horizontal(s).len() <= s.len(),
        s.len() > 0 ==> spec_horizontal(s).len() > 0 && spec_horizontal(s).last().start_line
            == s.last().start_line && spec_horizontal(s).last().start_col <= s.last().start_col,
    decreases s.len(),
{
    if s.len() > 0 {
        let u = s.drop_last();
        let r = s.last();
        assert(sorted_pos(u));
        assert(all_wf(u));
        assert(all_color(u, g));
        lemma_horizontal_props(u, g);
        let h = spec_horizontal(u);
        let t = spec_horizontal(s);
        assert(wf_region(r));
        if h.len() > 0 && joins_horizontally(h.last(), r) {
            let last = h.last();
            let y = BackgroundRegion {
                end_col: if last.end_col >= r.end_col {
                    last.end_col
                } else {
                    r.end_col
                },
                ..last
            };
            assert(t == h.update(h.len() - 1, y));
            assert(pos_le(s[s.len() - 2], s[s.len() - 1]));
            assert(u.last() == s[s.len() - 2]);
            assert(last.start_col <= r.start_col);
            assert(wf_region(last));
            assert forall|line: int, col: int| #[trigger] covered(t, line, col) == covered(s, line, col) by {
                lemma_covered_update(h, h.len() - 1, y, r, line, col);
                lemma_covered_drop_last(s, line, col);
            }
            assert forall|i: int| 0 <= i < t.len() implies #[trigger] wf_region(t[i]) by {
                if i < h.len() - 1 {
                    assert(t[i] == h[i]);
                }
            }
            assert forall|i: int| 0 <= i < t.len() implies (#[trigger] t[i]).color == g by {
                if i < h.len() - 1 {
                    assert(t[i] == h[i]);
                }
            }
        } else {
            assert(t == h.push(r));
            assert forall|line: int, col: int| #[trigger] covered(t, line, col) == covered(s, line, col) by {
                lemma_covered_push(h, r, line, col);
                lemma_covered_drop_last(s, line, col);
            }
            assert forall|i: int| 0 <= i < t.len() implies #[trigger] wf_region(t[i]) by {
                if i < h.len() {
                    assert(t[i] == h[i]);
                }
            }
            assert forall|i: int| 0 <= i < t.len() implies (#[trigger] t[i]).color == g by {
                if i < h.len() {
                    assert(t[i] == h[i]);
                }
            }
        }
    }
}

// ---- vertical ----

proof fn lemma_vertical_props(s: Seq<BackgroundRegion>, g: ColorKey)
    requires
        all_wf(s),
        all_color(s, g),
    ensures
        forall|line: int, col: int| #[trigger] covered(spec_vertical(s), line, col) == covered(s, line, col),
        all_wf(spec_vertical(s)),
        all_color(spec_vertical(s), g),
        spec_vertical(s).len() <= s.len(),
    decreases s.len(),
{
    if s.len() > 0 {
        let u = s.drop_last();
        let r = s.last();
        assert(all_wf(u));
        assert(all_color(u, g));
        lemma_vertical_props(u, g);
        let v = spec_vertical(u);
        let t = spec_vertical(s);
        assert(wf_region(r));
        let k = last_span_index(v, r.start_col, r.end_col);
        lemma_last_span_index(v, r.start_col, r.end_col);
        if k is Some && v[k->0].end_line + 1 == r.start_line {
            let kk = k->0;
            let y = BackgroundRegion { end_line: r.end_line, ..v[kk] };
            assert(t == v.update(kk, y));
            assert(wf_region(v[kk]));
            assert forall|line: int, col: int| #[trigger] covered(t, line, col) == covered(s, line, col) by {
                lemma_covered_update(v, kk, y, r, line, col);
                lemma_covered_drop_last(s, line, col);
            }
            assert forall|i: int| 0 <= i < t.len() implies #[trigger] wf_region(t[i]) by {
                if i != kk {
                    assert(t[i] == v[i]);
                }
            }
            assert forall|i: int| 0 <= i < t.len() implies (#[trigger] t[i]).color == g by {
                if i != kk {
                    assert(t[i] == v[i]);
                }
            }
        } else {
            assert(t == v.push(r));
            assert forall|line: int, col: int| #[trigger] covered(t, line, col) == covered(s, line, col) by {
                lemma_covered_push(v, r, line, col);
                lemma_covered_drop_last(s, line, col);
            }
            assert forall|i: int| 0 <= i < t.len() implies #[trigger] wf_region(t[i]) by {
                if i < v.len() {
                    assert(t[i] == v[i]);
                }
            }
            assert forall|i: int| 0 <= i < t.len() implies (#[trigger] t[i]).color == g by {
                if i < v.len() {
                    assert(t[i] == v[i]);
                }
            }
        }
    }
}

// ---- grouping and the whole merge ----

proof fn lemma_group_props(rs: Seq<BackgroundRegion>, g: ColorKey)
    ensures
        all_color(spec_group(rs, g), g),
        all_wf(rs) ==> all_wf(spec_group(rs, g)),
        forall|line: int, col: int| #[trigger] covered(spec_group(rs, g), line, col) == painted(rs, line, col, g),
    decreases rs.len(),
{
    if rs.len() > 0 {
        let u = rs.drop_last();
        let r = rs.last();
        lemma_group_props(u, g);
        let h = spec_group(u, g);
        let t = spec_group(rs, g);
        if all_wf(rs) {
            assert(all_wf(u));
        }
        assert forall|line: int, col: int| #[trigger] covered(t, line, col) == painted(rs, line, col, g) by {
            lemma_painted_drop_last(rs, line, col, g);
            if r.color == g {
                lemma_covered_push(h, r, line, col);
            }
        }
        if r.color == g {
            assert forall|i: int| 0 <= i < t.len() implies (#[trigger] t[i]).color == g by {
                if i < h.len() {
                    assert(t[i] == h[i]);
                }
            }
            if all_wf(rs) {
                assert forall|i: int| 0 <= i < t.len() implies #[trigger] wf_region(t[i]) by {
                    if i < h.len() {
                        assert(t[i] == h[i]);
                    }
                }
            }
        }
    }
}

proof fn lemma_painted_drop_last(s: Seq<BackgroundRegion>, line: int, col: int, color: ColorKey)
    requires
        s.len() > 0,
    ensures
        painted(s, line, col, color) == (painted(s.drop_last(), line, col, color) || (s.last().color
            == color && covers(s.last(), line, col))),
{
    let u = s.drop_last();
    if painted(s, line, col, color) {
        let i = choose|i: int| 0 <= i < s.len() && s[i].color == color && covers(#[trigger] s[i], line, col);
        if i < u.len() {
            assert(u[i] == s[i]);
        }
    }
    if painted(u, line, col, color) {
        let i = choose|i: int| 0 <= i < u.len() && u[i].color == color && covers(#[trigger] u[i], line, col);
        assert(s[i] == u[i]);
    }
}

proof fn lemma_painted_concat(a: Seq<BackgroundRegion>, b: Seq<BackgroundRegion>, line: int, col: int, color: ColorKey)
    ensures
        painted(a + b, line, col, color) == (painted(a, line, col, color) || painted(b, line, col, color)),
{
    let t = a + b;
    if painted(t, line, col, color) {
        let i = choose|i: int| 0 <= i < t.len() && t[i].color == color && covers(#[trigger] t[i], line, col);
        if i < a.len() {
            assert(t[i] == a[i]);
        } else {
            assert(t[i] == b[i - a.len()]);
        }
    }
    if painted(a, line, col, color) {
        let i = choose|i: int| 0 <= i < a.len() && a[i].color == color && covers(#[trigger] a[i], line, col);
        assert(t[i] == a[i]);
    }
    if painted(b, line, col, color) {
        let i = choose|i: int| 0 <= i < b.len() && b[i].color == color && covers(#[trigger] b[i], line, col);
        assert(t[i + a.len()] == b[i]);
    }
}

proof fn lemma_painted_one_color(s: Seq<BackgroundRegion>, g: ColorKey, line: int, col: int, color: ColorKey)
    requires
        all_color(s, g),
    ensures
        painted(s, line, col, color) == (color == g && covered(s, line, col)),
{
    if painted(s, line, col, color) {
        let i = choose|i: int| 0 <= i < s.len() && s[i].color == color && covers(#[trigger] s[i], line, col);
        assert(covers(s[i], line, col));
    }
    if color == g && covered(s, line, col) {
        let i = choose|i: int| 0 <= i < s.len() && #[trigger] covers(s[i], line, col);
        assert(s[i].color == g);
    }
}

proof fn lemma_merge_group_props(rs: Seq<BackgroundRegion>, g: ColorKey)
    requires
        all_wf(rs),
    ensures
        all_wf(merge_group(spec_group(rs, g))),
        forall|line: int, col: int, color: ColorKey| #[trigger] painted(merge_group(spec_group(rs, g)), line, col, color)
            == (color == g && painted(rs, line, col, g)),
{
    let grp = spec_group(rs, g);
    lemma_group_props(rs, g);
    lemma_sort_props(grp, g);
    let so = spec_sort(grp);
    lemma_horizontal_props(so, g);
    let ho = spec_horizontal(so);
    lemma_vertical_props(ho, g);
    let m = spec_vertical(ho);
    assert forall|line: int, col: int, color: ColorKey| #[trigger] painted(m, line, col, color) == (color == g
        && painted(rs, line, col, g)) by {
        lemma_painted_one_color(m, g, line, col, color);
        assert(covered(m, line, col) == covered(ho, line, col));
        assert(covered(ho, line, col) == covered(so, line, col));
        assert(covered(so, line, col) == covered(grp, line, col));
    }
}

proof fn lemma_merge_colors_props(rs: Seq<BackgroundRegion>, cs: Seq<ColorKey>)
    requires
        all_wf(rs),
    ensures
        all_wf(merge_colors(rs, cs)),
        forall|line: int, col: int, color: ColorKey| #[trigger] painted(merge_colors(rs, cs), line, col, color)
            == (cs.contains(color) && painted(rs, line, col, color)),
    decreases cs.len(),
{
    if cs.len() > 0 {
        let d = cs.drop_last();
        let g = cs.last();
        lemma_merge_colors_props(rs, d);
        lemma_merge_group_props(rs, g);
        let a = merge_colors(rs, d);
        let b = merge_group(spec_group(rs, g));
        assert(merge_colors(rs, cs) == a + b);
        assert forall|line: int, col: int, color: ColorKey| #[trigger] painted(merge_colors(rs, cs), line, col, color)
            == (cs.contains(color) && painted(rs, line, col, color)) by {
            lemma_painted_concat(a, b, line, col, color);
            if cs.contains(color) && color != g {
                let j = choose|j: int| 0 <= j < cs.len() && cs[j] == color;
                assert(d[j] == color);
            }
            if d.contains(color) {
                let j = choose|j: int| 0 <= j < d.len() && d[j] == color;
                assert(cs[j] == color);
            }
            assert(cs[cs.len() - 1] == g);
        }
        assert forall|i: int| 0 <= i < (a + b).len() implies #[trigger] wf_region((a + b)[i]) by {
            if i < a.len() {
                assert((a + b)[i] == a[i]);
            } else {
                assert((a + b)[i] == b[i - a.len()]);
            }
        }
    }
}

proof fn lemma_colors_complete(rs: Seq<BackgroundRegion>)
    ensures
        forall|i: int| 0 <= i < rs.len() ==> spec_colors(rs).contains(#[trigger] rs[i].color),
    decreases rs.len(),
{
    if rs.len() > 0 {
        let u = rs.drop_last();
        lemma_colors_complete(u);
        let c = spec_colors(u);
        assert forall|i: int| 0 <= i < rs.len() implies spec_colors(rs).contains(#[trigger] rs[i].color) by {
            if i < u.len() {
                assert(u[i] == rs[i]);
                assert(c.contains(u[i].color));
                if !c.contains(rs.last().color) {
                    let j = choose|j: int| 0 <= j < c.len() && c[j] == u[i].color;
                    assert(c.push(rs.last().color)[j] == u[i].color);
                }
            } else if !c.contains(rs.last().color) {
                assert(c.push(rs.last().color)[c.len() as int] == rs.last().color);
            }
        }
    }
}

/// Merging paints exactly the cells it was given, each in its own colour:
/// a cell is covered by a merged region of some colour if and only if it
/// was covered by an input region of that colour.
pub proof fn law_merge_preserves_painted_cells(
    regions: Seq<BackgroundRegion>,
    line: int,
    col: int,
    color: ColorKey,
)
    requires
        all_wf(regions),
    ensures
        painted(spec_merge(regions), line, col, color) == painted(regions, line, col, color),
{
    lemma_merge_colors_props(regions, spec_colors(regions));
    lemma_colors_complete(regions);
    if painted(regions, line, col, color) {
        let i = choose|i: int| 0 <= i < regions.len() && regions[i].color == color && covers(#[trigger] regions[i], line, col);
        assert(spec_colors(regions).contains(regions[i].color));
    }
}

/// Merged regions are non-empty rectangles when the input regions are.
pub proof fn law_merge_keeps_regions_well_formed(regions: Seq<BackgroundRegion>)
    requires
        all_wf(regions),
    ensures
        all_wf(spec_merge(regions)),
{
    lemma_merge_colors_props(regions, spec_colors(regions));
}

// ---- sizes ----

proof fn lemma_insert_len(s: Seq<BackgroundRegion>, x: BackgroundRegion)
    ensures
        spec_insert(s, x).len() == s.len() + 1,
    decreases s.len(),
{
    if !(s.len() == 0 || pos_le(s.last(), x)) {
        lemma_insert_len(s.drop_last(), x);
    }
}

proof fn lemma_sort_len(s: Seq<BackgroundRegion>)
    ensures
        spec_sort(s).len() == s.len(),
    decreases s.len(),
{
    if s.len() > 0 {
        lemma_sort_len(s.drop_last());
        lemma_insert_len(spec_sort(s.drop_last()), s.last());
    }
}

proof fn lemma_horizontal_len(s: Seq<BackgroundRegion>)
    ensures
        spec_horizontal(s).len() <= s.len(),
    decreases s.len(),
{
    if s.len() > 0 {
        lemma_horizontal_len(s.drop_last());
    }
}

proof fn lemma_vertical_len(s: Seq<BackgroundRegion>)
    ensures
        spec_vertical(s).len() <= s.len(),
    decreases s.len(),
{
    if s.len() > 0 {
        lemma_vertical_len(s.drop_last());
        lemma_last_span_index(spec_vertical(s.drop_last()), s.last().start_col, s.last().end_col);
    }
}

/// The number of regions in the groups of the colours `cs`.
pub open spec fn group_total(rs: Seq<BackgroundRegion>, cs: Seq<ColorKey>) -> nat
    decreases cs.len(),
{
    if cs.len() == 0 {
        0
    } else {
        group_total(rs, cs.drop_last()) + spec_group(rs, cs.last()).len()
    }
}

proof fn lemma_group_total_empty(rs: Seq<BackgroundRegion>, cs: Seq<ColorKey>)
    requires
        rs.len() == 0,
    ensures
        group_total(rs, cs) == 0,
    decreases cs.len(),
{
    if cs.len() > 0 {
        lemma_group_total_empty(rs, cs.drop_last());
    }
}

proof fn lemma_group_total_step(rs: Seq<BackgroundRegion>, cs: Seq<ColorKey>)
    requires
        rs.len() > 0,
        cs.no_duplicates(),
    ensures
        group_total(rs, cs) == group_total(rs.drop_last(), cs) + (if cs.contains(rs.last().color) {
            1int
        } else {
            0int
        }),
    decreases cs.len(),
{
    if cs.len() > 0 {
        let d = cs.drop_last();
        assert(d.no_duplicates()) by {
            assert forall|i: int, j: int| 0 <= i < d.len() && 0 <= j < d.len() && i != j implies d[i] != d[j] by {
                assert(d[i] == cs[i] && d[j] == cs[j]);
            }
        }
        lemma_group_total_step(rs, d);
        let x = rs.last().color;
        if cs.last() == x {
            assert(cs.contains(x)) by {
                assert(cs[cs.len() - 1] == x);
            }
            assert(!d.contains(x)) by {
                if d.contains(x) {
                    let j = choose|j: int| 0 <= j < d.len() && d[j] == x;
                    assert(cs[j] == cs[cs.len() - 1]);
                }
            }
        } else {
            assert(cs.contains(x) == d.contains(x)) by {
                if cs.contains(x) {
                    let j = choose|j: int| 0 <= j < cs.len() && cs[j] == x;
                    assert(j < d.len());
                    assert(d[j] == x);
                }
                if d.contains(x) {
                    let j = choose|j: int| 0 <= j < d.len() && d[j] == x;
                    assert(cs[j] == x);
                }
            }
        }
    }
}

proof fn lemma_group_total_bound(rs: Seq<BackgroundRegion>, cs: Seq<ColorKey>)
    requires
        cs.no_duplicates(),
    ensures
        group_total(rs, cs) <= rs.len(),
    decreases rs.len(),
{
    if rs.len() == 0 {
        lemma_group_total_empty(rs, cs);
    } else {
        lemma_group_total_bound(rs.drop_last(), cs);
        lemma_group_total_step(rs, cs);
    }
}

proof fn lemma_merge_colors_len(rs: Seq<BackgroundRegion>, cs: Seq<ColorKey>)
    ensures
        merge_colors(rs, cs).len() <= group_total(rs, cs),
    decreases cs.len(),
{
    if cs.len() > 0 {
        lemma_merge_colors_len(rs, cs.drop_last());
        let g = spec_group(rs, cs.last());
        lemma_sort_len(g);
        lemma_horizontal_len(spec_sort(g));
        lemma_vertical_len(spec_horizontal(spec_sort(g)));
    }
}

proof fn lemma_colors_distinct(rs: Seq<BackgroundRegion>)
    ensures
        spec_colors(rs).no_duplicates(),
    decreases rs.len(),
{
    if rs.len() > 0 {
        let u = rs.drop_last();
        lemma_colors_distinct(u);
        let c = spec_colors(u);
        let x = rs.last().color;
        if !c.contains(x) {
            let d = c.push(x);
            assert forall|i: int, j: int| 0 <= i < d.len() && 0 <= j < d.len() && i != j implies d[i] != d[j] by {
                if i < c.len() && j < c.len() {
                    assert(d[i] == c[i] && d[j] == c[j]);
                } else if i < c.len() {
                    assert(d[i] == c[i]);
                } else if j < c.len() {
                    assert(d[j] == c[j]);
                }
            }
        }
    }
}

/// Merging never makes more regions than it was given, so painting the
/// merged regions takes no more paint calls than painting the input.
pub proof fn law_merge_never_grows(regions: Seq<BackgroundRegion>)
    ensures
        spec_merge(regions).len() <= regions.len(),
{
    lemma_colors_distinct(regions);
    lemma_merge_colors_len(regions, spec_colors(regions));
    lemma_group_total_bound(regions, spec_colors(regions));
}

// ---- collecting ----

/// The cell at row-major index `idx` is a visible cell with background
/// `color` at (`line`, `col`).
pub open spec fn cell_has_background(
    bgs: Seq<Option<ColorKey>>,
    cols: nat,
    rows: nat,
    idx: int,
    line: int,
    col: int,
    color: ColorKey,
) -> bool {
    &&& 0 <= idx < bgs.len()
    &&& idx / (cols as int) < rows
    &&& bgs[idx] == Some(color)
    &&& line == idx / (cols as int)
    &&& col == idx % (cols as int)
}

proof fn lemma_painted_push(s: Seq<BackgroundRegion>, x: BackgroundRegion, line: int, col: int, color: ColorKey)
    ensures
        painted(s.push(x), line, col, color) == (painted(s, line, col, color) || (x.color == color
            && covers(x, line, col))),
{
    let t = s.push(x);
    assert(t.drop_last() == s);
    lemma_painted_drop_last(t, line, col, color);
}

proof fn lemma_painted_update_last(
    s: Seq<BackgroundRegion>,
    y: BackgroundRegion,
    line: int,
    col: int,
    color: ColorKey,
    extra: bool,
)
    requires
        s.len() > 0,
        y.color == s.last().color,
        covers(y, line, col) == (covers(s.last(), line, col) || extra),
    ensures
        painted(s.update(s.len() - 1, y), line, col, color) == (painted(s, line, col, color) || (
        y.color == color && extra)),
{
    let t = s.update(s.len() - 1, y);
    lemma_painted_drop_last(t, line, col, color);
    lemma_painted_drop_last(s, line, col, color);
    assert(t.drop_last() == s.drop_last());
}

proof fn lemma_collect_props(bgs: Seq<Option<ColorKey>>, cols: nat, rows: nat)
    requires
        0 < cols <= i32::MAX,
        rows <= i32::MAX,
    ensures
        all_wf(spec_collect(bgs, cols, rows)),
        forall|i: int| 0 <= i < spec_collect(bgs, cols, rows).len() ==> (#[trigger] spec_collect(bgs, cols, rows)[i]).start_line
            == spec_collect(bgs, cols, rows)[i].end_line,
        forall|line: int, col: int, color: ColorKey| #[trigger] painted(spec_collect(bgs, cols, rows), line, col, color)
            == exists|idx: int| #[trigger] cell_has_background(bgs, cols, rows, idx, line, col, color),
    decreases bgs.len(),
{
    if bgs.len() > 0 {
        let u = bgs.drop_last();
        lemma_collect_props(u, cols, rows);
        let prev = spec_collect(u, cols, rows);
        let t = spec_collect(bgs, cols, rows);
        let idx = bgs.len() - 1;
        let l = idx / (cols as int);
        let c = idx % (cols as int);
        assert(0 <= c < cols);
        assert forall|line: int, col: int, color: ColorKey| #[trigger] painted(t, line, col, color)
            == exists|k: int| #[trigger] cell_has_background(bgs, cols, rows, k, line, col, color) by {
            let p_new = exists|k: int| #[trigger] cell_has_background(bgs, cols, rows, k, line, col, color);
            let p_old = exists|k: int| #[trigger] cell_has_background(u, cols, rows, k, line, col, color);
            let here = cell_has_background(bgs, cols, rows, idx, line, col, color);
            assert(p_new == (p_old || here)) by {
                if p_new {
                    let k = choose|k: int| #[trigger] cell_has_background(bgs, cols, rows, k, line, col, color);
                    if k < idx {
                        assert(u[k] == bgs[k]);
                        assert(cell_has_background(u, cols, rows, k, line, col, color));
                    }
                }
                if p_old {
                    let k = choose|k: int| #[trigger] cell_has_background(u, cols, rows, k, line, col, color);
                    assert(u[k] == bgs[k]);
                    assert(cell_has_background(bgs, cols, rows, k, line, col, color));
                }
            }
            if l >= rows || bgs.last() is None {
                assert(!here);
            } else {
                let cc = bgs.last()->0;
                let li = l as i32;
                let ci = c as i32;
                assert(li == l && ci == c);
                if prev.len() > 0 && prev.last().color == cc && prev.last().start_line == li
                    && prev.last().end_line == li && prev.last().end_col + 1 == ci {
                    let y = BackgroundRegion { end_col: ci, ..prev.last() };
                    assert(wf_region(prev.last()));
                    lemma_painted_update_last(prev, y, line, col, color, line == l && col == c);
                } else {
                    lemma_painted_push(prev, single_cell(li, ci, cc), line, col, color);
                }
            }
        }
        if !(l >= rows || bgs.last() is None) {
            let cc = bgs.last()->0;
            let li = l as i32;
            let ci = c as i32;
            if prev.len() > 0 && prev.last().color == cc && prev.last().start_line == li
                && prev.last().end_line == li && prev.last().end_col + 1 == ci {
                assert(wf_region(prev[prev.len() - 1]));
                assert forall|i: int| 0 <= i < t.len() implies #[trigger] wf_region(t[i]) by {
                    if i < prev.len() - 1 {
                        assert(t[i] == prev[i]);
                    }
                }
                assert forall|i: int| 0 <= i < t.len() implies (#[trigger] t[i]).start_line == t[i].end_line by {
                    if i < prev.len() - 1 {
                        assert(t[i] == prev[i]);
                    }
                }
            } else {
                assert forall|i: int| 0 <= i < t.len() implies #[trigger] wf_region(t[i]) by {
                    if i < prev.len() {
                        assert(t[i] == prev[i]);
                    }
                }
                assert forall|i: int| 0 <= i < t.len() implies (#[trigger] t[i]).start_line == t[i].end_line by {
                    if i < prev.len() {
                        assert(t[i] == prev[i]);
                    }
                }
            }
        }
    }
}

/// Every visible cell with an explicit background is painted in that
/// colour, and nothing else is: after collecting and merging, a cell is
/// painted in a colour exactly when its background is that colour.
pub proof fn law_backgrounds_painted_exactly(
    bgs: Seq<Option<ColorKey>>,
    cols: nat,
    rows: nat,
    line: int,
    col: int,
    color: ColorKey,
)
    requires
        0 < cols <= i32::MAX,
        rows <= i32::MAX,
    ensures
        painted(spec_merge(spec_collect(bgs, cols, rows)), line, col, color) == exists|idx: int|
            #[trigger] cell_has_background(bgs, cols, rows, idx, line, col, color),
{
    lemma_collect_props(bgs, cols, rows);
    law_merge_preserves_painted_cells(spec_collect(bgs, cols, rows), line, col, color);
}

/// The rectangle contains cell (`line`, `col`).
pub open spec fn rect_covers(r: LayoutRect, line: int, col: int) -> bool {
    r.point.line == line && r.point.column <= col < r.point.column + r.num_of_cells
}

/// Some rectangle of colour `color` contains cell (`line`, `col`).
pub open spec fn rect_painted(rs: Seq<LayoutRect>, line: int, col: int, color: ColorKey) -> bool {
    exists|i: int| 0 <= i < rs.len() && rs[i].color == color && rect_covers(#[trigger] rs[i], line, col)
}

proof fn lemma_region_rects(r: BackgroundRegion, line: int, col: int, color: ColorKey)
    requires
        wf_region(r),
        0 <= r.start_col,
    ensures
        rect_painted(region_rects(r), line, col, color) == (r.color == color && covers(r, line, col)),
{
    let v = region_rects(r);
    if rect_painted(v, line, col, color) {
        let i = choose|i: int| 0 <= i < v.len() && v[i].color == color && rect_covers(#[trigger] v[i], line, col);
        assert(v[i].point.line == r.start_line + i);
        assert(v[i].num_of_cells == r.end_col - r.start_col + 1);
    }
    if r.color == color && covers(r, line, col) {
        let i = line - r.start_line;
        assert(v[i].point.line == r.start_line + i);
        assert(v[i].num_of_cells == r.end_col - r.start_col + 1);
        assert(rect_covers(v[i], line, col));
    }
}

proof fn lemma_rect_painted_concat(a: Seq<LayoutRect>, b: Seq<LayoutRect>, line: int, col: int, color: ColorKey)
    ensures
        rect_painted(a + b, line, col, color) == (rect_painted(a, line, col, color) || rect_painted(
            b,
            line,
            col,
            color,
        )),
{
    let t = a + b;
    if rect_painted(t, line, col, color) {
        let i = choose|i: int| 0 <= i < t.len() && t[i].color == color && rect_covers(#[trigger] t[i], line, col);
        if i < a.len() {
            assert(t[i] == a[i]);
        } else {
            assert(t[i] == b[i - a.len()]);
        }
    }
    if rect_painted(a, line, col, color) {
        let i = choose|i: int| 0 <= i < a.len() && a[i].color == color && rect_covers(#[trigger] a[i], line, col);
        assert(t[i] == a[i]);
    }
    if rect_painted(b, line, col, color) {
        let i = choose|i: int| 0 <= i < b.len() && b[i].color == color && rect_covers(#[trigger] b[i], line, col);
        assert(t[a.len() + i] == b[i]);
    }
}

proof fn lemma_rects_painted(rs: Seq<BackgroundRegion>, line: int, col: int, color: ColorKey)
    requires
        all_wf(rs),
        forall|j: int| 0 <= j < rs.len() ==> 0 <= (#[trigger] rs[j]).start_col,
    ensures
        rect_painted(spec_rects(rs), line, col, color) == painted(rs, line, col, color),
    decreases rs.len(),
{
    if rs.len() == 0 {
    } else {
        let u = rs.drop_last();
        assert forall|j: int| 0 <= j < u.len() implies #[trigger] wf_region(u[j]) by {
            assert(u[j] == rs[j]);
        }
        assert forall|j: int| 0 <= j < u.len() implies 0 <= (#[trigger] u[j]).start_col by {
            assert(u[j] == rs[j]);
        }
        lemma_rects_painted(u, line, col, color);
        assert(wf_region(rs[rs.len() - 1]));
        assert(0 <= rs[rs.len() - 1].start_col);
        lemma_region_rects(rs.last(), line, col, color);
        lemma_rect_painted_concat(spec_rects(u), region_rects(rs.last()), line, col, color);
        assert(u.push(rs.last()) == rs);
        lemma_painted_push(u, rs.last(), line, col, color);
    }
}

/// The rectangles painted for a grid's backgrounds cover a cell in a
/// colour exactly when that cell is visible and has that background: the
/// merge and the split into single-line rectangles lose nothing and add
/// nothing.
pub proof fn law_background_rects_paint_exactly(
    bgs: Seq<Option<ColorKey>>,
    cols: nat,
    rows: nat,
    line: int,
    col: int,
    color: ColorKey,
)
    requires
        0 < cols <= i32::MAX,
        rows <= i32::MAX,
    ensures
        rect_painted(spec_rects(spec_merge(spec_collect(bgs, cols, rows))), line, col, color)
            == exists|idx: int| #[trigger] cell_has_background(bgs, cols, rows, idx, line, col, color),
{
    let c = spec_collect(bgs, cols, rows);
    let m = spec_merge(c);
    lemma_collect_props(bgs, cols, rows);
    law_merge_keeps_regions_well_formed(c);
    assert forall|j: int| 0 <= j < m.len() implies 0 <= (#[trigger] m[j]).start_col by {
        let r = m[j];
        assert(wf_region(r));
        assert(covers(r, r.start_line as int, r.start_col as int));
        assert(painted(m, r.start_line as int, r.start_col as int, r.color));
        law_backgrounds_painted_exactly(bgs, cols, rows, r.start_line as int, r.start_col as int, r.color);
        let idx = choose|idx: int| #[trigger] cell_has_background(bgs, cols, rows, idx, r.start_line as int, r.start_col as int, r.color);
        assert(r.start_col == idx % (cols as int));
    }
    lemma_rects_painted(m, line, col, color);
    law_backgrounds_painted_exactly(bgs, cols, rows, line, col, color);
}

/// `x` is line `k` of region `j` of `rs`, for some `j` and `k`.
pub open spec fn from_region(rs: Seq<BackgroundRegion>, x: LayoutRect) -> bool {
    exists|j: int, k: int|
        #![trigger region_rects(rs[j])[k]]
        0 <= j < rs.len() && 0 <= k < region_height(rs[j]) && x == region_rects(rs[j])[k]
}

/// Every rectangle of `rs` is one line of one region of `rs`.
proof fn lemma_rect_origin(rs: Seq<BackgroundRegion>)
    ensures
        forall|i: int| 0 <= i < spec_rects(rs).len() ==> from_region(rs, #[trigger] spec_rects(rs)[i]),
    decreases rs.len(),
{
    if rs.len() > 0 {
        let u = rs.drop_last();
        lemma_rect_origin(u);
        let a = spec_rects(u);
        let b = region_rects(rs.last());
        assert(spec_rects(rs) == a + b);
        assert forall|i: int| 0 <= i < spec_rects(rs).len() implies from_region(rs, #[trigger] spec_rects(rs)[i]) by {
            if i < a.len() {
                assert(spec_rects(rs)[i] == a[i]);
                assert(from_region(u, a[i]));
                let (j, k) = choose|j: int, k: int|
                    #![trigger region_rects(u[j])[k]]
                    0 <= j < u.len() && 0 <= k < region_height(u[j]) && a[i] == region_rects(u[j])[k];
                assert(rs[j] == u[j]);
                assert(spec_rects(rs)[i] == region_rects(rs[j])[k]);
            } else {
                let k = i - a.len();
                let j = rs.len() - 1;
                assert(spec_rects(rs)[i] == b[k]);
                assert(rs[j] == rs.last());
                assert(spec_rects(rs)[i] == region_rects(rs[j])[k]);
            }
        }
    }
}

/// A rectangle on a viewport line, at least one cell wide, within the
/// grid's columns.
pub open spec fn rect_in_grid(r: LayoutRect, cols: nat, rows: nat) -> bool {
    &&& r.num_of_cells >= 1
    &&& 0 <= r.point.line < rows
    &&& 0 <= r.point.column
    &&& r.point.column + r.num_of_cells <= cols
}

/// Every background rectangle is at least one cell wide and lies on a
/// viewport line within the grid's columns.
pub proof fn law_background_rects_in_grid(bgs: Seq<Option<ColorKey>>, cols: nat, rows: nat)
    requires
        0 < cols <= i32::MAX,
        rows <= i32::MAX,
    ensures
        forall|i: int| 0 <= i < spec_rects(spec_merge(spec_collect(bgs, cols, rows))).len()
            ==> rect_in_grid(#[trigger] spec_rects(spec_merge(spec_collect(bgs, cols, rows)))[i], cols, rows),
{
    let c = spec_collect(bgs, cols, rows);
    let m = spec_merge(c);
    lemma_collect_props(bgs, cols, rows);
    law_merge_keeps_regions_well_formed(c);
    lemma_rect_origin(m);
    assert forall|i: int| 0 <= i < spec_rects(m).len() implies rect_in_grid(#[trigger] spec_rects(m)[i], cols, rows) by {
        assert(from_region(m, spec_rects(m)[i]));
        let (j, k) = choose|j: int, k: int|
            #![trigger region_rects(m[j])[k]]
            0 <= j < m.len() && 0 <= k < region_height(m[j]) && spec_rects(m)[i] == region_rects(m[j])[k];
        let r = m[j];
        assert(wf_region(r));
        assert(covers(r, r.start_line as int, r.start_col as int));
        assert(painted(m, r.start_line as int, r.start_col as int, r.color));
        law_backgrounds_painted_exactly(bgs, cols, rows, r.start_line as int, r.start_col as int, r.color);
        let i0 = choose|idx: int| #[trigger] cell_has_background(bgs, cols, rows, idx, r.start_line as int, r.start_col as int, r.color);
        assert(covers(r, r.end_line as int, r.end_col as int));
        assert(painted(m, r.end_line as int, r.end_col as int, r.color));
        law_backgrounds_painted_exactly(bgs, cols, rows, r.end_line as int, r.end_col as int, r.color);
        let i1 = choose|idx: int| #[trigger] cell_has_background(bgs, cols, rows, idx, r.end_line as int, r.end_col as int, r.color);
        assert(0 <= i0 / (cols as int));
        assert(0 <= i0 % (cols as int) < cols);
        assert(0 <= i1 % (cols as int) < cols);
        assert(i1 / (cols as int) < rows);
        let v = region_rects(r);
        assert(v[k].point.line == r.start_line + k);
        assert(v[k].num_of_cells == r.end_col - r.start_col + 1);
    }
}

} // verus!
