//! Text-run batching: consecutive visible cells of one line drawn in one
//! style are joined into a single run, so that each run is shaped once.

use vstd::prelude::*;
use crate::painter::LayoutPoint;

verus! {

// =========================================================================
// Types
// =========================================================================

/// What one cell contributes to the text: the character painted (None for
/// a cell that paints nothing) and a key for its text style; two cells are
/// drawn alike exactly when their keys are equal.
#[derive(Clone, Copy, Debug)]
pub struct CellGlyph {
    pub ch: Option<char>,
    pub style: u64,
}

/// A run of cells drawn in one style, starting at `start`.
#[derive(Clone, Debug)]
pub struct RunSpan {
    pub start: LayoutPoint,
    pub text: Vec<char>,
    pub cell_count: usize,
    pub style: u64,
}

/// The mathematical value of a run.
pub struct RunView {
    pub start: LayoutPoint,
    pub text: Seq<char>,
    pub cell_count: nat,
    pub style: u64,
}

impl View for RunSpan {
    type V = RunView;

    open spec fn view(&self) -> RunView {
        RunView {
            start: self.start,
            text: self.text@,
            cell_count: self.cell_count as nat,
            style: self.style,
        }
    }
}

/// The values of a sequence of runs.
pub open spec fn runs_view(v: Seq<RunSpan>) -> Seq<RunView> {
    v.map_values(|r: RunSpan| r@)
}

// =========================================================================
// Specification
// =========================================================================

/// The run holding one character `ch` at `p`.
pub open spec fn fresh_run(p: LayoutPoint, ch: char, style: u64) -> RunView {
    RunView { start: p, text: seq![ch], cell_count: 1, style }
}

/// A cell at `p` in `style` continues run `b`: same style, same line, and
/// the cell right after the run's last one.
pub open spec fn continues(b: RunView, p: LayoutPoint, style: u64) -> bool {
    b.style == style && b.start.line == p.line && b.start.column + b.cell_count == p.column
}

/// The grid point of row-major cell `i` (line and column as `i32`).
pub open spec fn cell_point(i: nat, cols: nat) -> LayoutPoint {
    LayoutPoint { line: (i / cols) as i32, column: (i % cols) as i32 }
}

/// The finished runs and the open run after the first `n` cells; cells
/// below the viewport (`rows` lines) and cells that paint nothing are
/// skipped.
pub open spec fn batch_state(cells: Seq<CellGlyph>, cols: nat, rows: nat, n: nat) -> (
    Seq<RunView>,
    Option<RunView>,
)
    decreases n,
{
    if n == 0 {
        (seq![], None)
    } else {
        let (runs, cur) = batch_state(cells, cols, rows, (n - 1) as nat);
        let i = (n - 1) as nat;
        let g = cells[i as int];
        if i / cols >= rows || g.ch is None {
            (runs, cur)
        } else {
            let p = cell_point(i, cols);
            let ch = g.ch->0;
            match cur {
                Some(b) => if continues(b, p, g.style) {
                    (runs, Some(RunView { text: b.text.push(ch), cell_count: b.cell_count + 1, ..b }))
                } else {
                    (runs.push(b), Some(fresh_run(p, ch, g.style)))
                },
                None => (runs, Some(fresh_run(p, ch, g.style))),
            }
        }
    }
}

/// All runs of a row-major grid of `cols` columns, in order.
pub open spec fn spec_batch(cells: Seq<CellGlyph>, cols: nat, rows: nat) -> Seq<RunView> {
    let (runs, cur) = batch_state(cells, cols, rows, cells.len());
    match cur {
        Some(b) => runs.push(b),
        None => runs,
    }
}

// =========================================================================
// Implementation
// =========================================================================

/// Join the visible cells of a row-major grid into text runs: a cell
/// continues the current run when it has the same style and comes right
/// after the run's last cell on the same line; otherwise it starts a new
/// run. Cells on lines at or past `rows` and cells that paint nothing
/// are skipped.
pub fn batch_text_runs(cells: &Vec<CellGlyph>, cols: usize, rows: usize) -> (r: Vec<RunSpan>)
    requires
        cols > 0,
    ensures
        runs_view(r@) == spec_batch(cells@, cols as nat, rows as nat),
{
    let n = cells.len();
    let mut out: Vec<RunSpan> = Vec::new();
    let mut cur: Option<RunSpan> = None;
    let mut i: usize = 0;
    while i < n
        invariant
            n == cells@.len(),
            cols > 0,
            i <= n,
            runs_view(out@) == batch_state(cells@, cols as nat, rows as nat, i as nat).0,
            match cur {
                Some(b) => batch_state(cells@, cols as nat, rows as nat, i as nat).1 == Some(b@)
                    && b.cell_count <= i,
                None => batch_state(cells@, cols as nat, rows as nat, i as nat).1 is None,
            },
        decreases n - i,
    {
        let g = cells[i];
        let l = i / cols;
        let c = i % cols;
        if l < rows {
            if let Some(ch) = g.ch {
                let p = LayoutPoint { line: l as i32, column: c as i32 };
                assert(p == cell_point(i as nat, cols as nat));
                let mut taken: Option<RunSpan> = None;
                std::mem::swap(&mut taken, &mut cur);
                match taken {
                    Some(b) => {
                        if b.style == g.style && b.start.line == p.line && b.start.column as i128
                            + b.cell_count as i128 == p.column as i128 {
                            let mut b2 = b;
                            b2.text.push(ch);
                            b2.cell_count = b2.cell_count + 1;
                            assert(b2@ == RunView {
                                text: b@.text.push(ch),
                                cell_count: b@.cell_count + 1,
                                ..b@
                            });
                            cur = Some(b2);
                        } else {
                            let ghost old_out = out@;
                            out.push(b);
                            assert(runs_view(out@) =~= runs_view(old_out).push(b@));
                            let mut text: Vec<char> = Vec::new();
                            text.push(ch);
                            let f = RunSpan { start: p, text, cell_count: 1, style: g.style };
                            assert(f@ == fresh_run(p, ch, g.style)) by {
                                assert(f.text@ =~= seq![ch]);
                            }
                            cur = Some(f);
                        }
                    },
                    None => {
                        let mut text: Vec<char> = Vec::new();
                        text.push(ch);
                        let f = RunSpan { start: p, text, cell_count: 1, style: g.style };
                        assert(f@ == fresh_run(p, ch, g.style)) by {
                            assert(f.text@ =~= seq![ch]);
                        }
                        cur = Some(f);
                    },
                }
            }
        }
        i = i + 1;
    }
    match cur {
        Some(b) => {
            let ghost old_out = out@;
            out.push(b);
            assert(runs_view(out@) =~= runs_view(old_out).push(b@));
        },
        None => {},
    }
    out
}

// =========================================================================
// Laws
// =========================================================================

/// Row-major index of a run's first cell.
pub open spec fn run_first(b: RunView, cols: nat) -> int {
    cols * b.start.line + b.start.column
}

/// Row-major index just past a run's last cell.
pub open spec fn run_end(b: RunView, cols: nat) -> int {
    run_first(b, cols) + b.cell_count
}

/// The run lies on one viewport line, holds at least one cell and as many
/// characters as cells, and its text is the characters of the consecutive
/// cells it spans, all drawn in the run's style.
pub open spec fn run_ok(cells: Seq<CellGlyph>, cols: nat, rows: nat, b: RunView) -> bool {
    &&& 0 <= b.start.line < rows
    &&& 0 <= b.start.column
    &&& b.start.column + b.cell_count <= cols
    &&& b.cell_count == b.text.len()
    &&& b.cell_count > 0
    &&& run_end(b, cols) <= cells.len()
    &&& forall|k: int|
        0 <= k < b.cell_count ==> cells[run_first(b, cols) + k].ch == Some(#[trigger] b.text[k])
            && cells[run_first(b, cols) + k].style == b.style
}

/// Cell `idx` is on a viewport line and paints a character.
pub open spec fn visible(cells: Seq<CellGlyph>, cols: nat, rows: nat, idx: int) -> bool {
    idx / (cols as int) < rows && cells[idx].ch is Some
}

/// Run `b` spans cell `idx`.
pub open spec fn spans(b: RunView, cols: nat, idx: int) -> bool {
    run_first(b, cols) <= idx < run_end(b, cols)
}

/// Some run of `rs` spans cell `idx`.
pub open spec fn covered(rs: Seq<RunView>, cols: nat, idx: int) -> bool {
    exists|j: int| 0 <= j < rs.len() && spans(#[trigger] rs[j], cols, idx)
}

/// The invariant of batching after the first `n` cells.
pub open spec fn batch_inv(
    cells: Seq<CellGlyph>,
    cols: nat,
    rows: nat,
    n: nat,
    runs: Seq<RunView>,
    cur: Option<RunView>,
) -> bool {
    &&& forall|j: int| 0 <= j < runs.len() ==> run_ok(cells, cols, rows, #[trigger] runs[j])
        && run_end(runs[j], cols) <= n
    &&& forall|i: int, j: int|
        0 <= i < j < runs.len() ==> run_end(#[trigger] runs[i], cols) <= run_first(#[trigger] runs[j], cols)
    &&& cur matches Some(b) ==> {
        &&& run_ok(cells, cols, rows, b)
        &&& run_end(b, cols) <= n
        &&& forall|j: int| 0 <= j < runs.len() ==> run_end(#[trigger] runs[j], cols) <= run_first(b, cols)
    }
    &&& forall|idx: int|
        0 <= idx < n && #[trigger] visible(cells, cols, rows, idx) ==> covered(runs, cols, idx) || (
        cur matches Some(b) && spans(b, cols, idx))
}

proof fn lemma_cell_point(i: nat, cols: nat, rows: nat)
    requires
        0 < cols <= i32::MAX,
        rows <= i32::MAX,
        i / cols < rows,
    ensures
        cell_point(i, cols).line == i / cols,
        cell_point(i, cols).column == i % cols,
        cols * (i / cols) + i % cols == i,
        i % cols < cols,
{
    vstd::arithmetic::div_mod::lemma_fundamental_div_mod(i as int, cols as int);
}

proof fn lemma_batch_inv(cells: Seq<CellGlyph>, cols: nat, rows: nat, n: nat)
    requires
        0 < cols <= i32::MAX,
        rows <= i32::MAX,
        n <= cells.len(),
    ensures
        batch_inv(cells, cols, rows, n, batch_state(cells, cols, rows, n).0, batch_state(cells, cols, rows, n).1),
    decreases n,
{
    if n > 0 {
        let i = (n - 1) as nat;
        lemma_batch_inv(cells, cols, rows, i);
        let (runs, cur) = batch_state(cells, cols, rows, i);
        let g = cells[i as int];
        let (runs2, cur2) = batch_state(cells, cols, rows, n);
        if i / cols >= rows || g.ch is None {
            assert forall|idx: int| 0 <= idx < n && #[trigger] visible(cells, cols, rows, idx) implies covered(runs2, cols, idx) || (
            cur2 matches Some(b) && spans(b, cols, idx)) by {
                if idx == i {
                    assert(!visible(cells, cols, rows, idx));
                }
            }
        } else {
            lemma_cell_point(i, cols, rows);
            let p = cell_point(i, cols);
            let ch = g.ch->0;
            let f = fresh_run(p, ch, g.style);
            assert(run_first(f, cols) == i);
            assert(run_ok(cells, cols, rows, f)) by {
                assert forall|k: int| 0 <= k < f.cell_count implies cells[run_first(f, cols) + k].ch == Some(#[trigger] f.text[k])
                    && cells[run_first(f, cols) + k].style == f.style by {
                    assert(k == 0);
                }
            }
            match cur {
                Some(b) => {
                    if continues(b, p, g.style) {
                        let b2 = RunView { text: b.text.push(ch), cell_count: b.cell_count + 1, ..b };
                        assert(run_first(b2, cols) == run_first(b, cols));
                        assert(run_end(b, cols) == i);
                        assert(run_ok(cells, cols, rows, b2)) by {
                            assert forall|k: int| 0 <= k < b2.cell_count implies cells[run_first(b2, cols) + k].ch == Some(#[trigger] b2.text[k])
                                && cells[run_first(b2, cols) + k].style == b2.style by {
                                if k < b.cell_count {
                                    assert(b2.text[k] == b.text[k]);
                                } else {
                                    assert(b2.text[k] == ch);
                                }
                            }
                        }
                        assert forall|idx: int| 0 <= idx < n && #[trigger] visible(cells, cols, rows, idx) implies covered(runs2, cols, idx) || (
                        cur2 matches Some(c) && spans(c, cols, idx)) by {
                            if idx < i {
                                assert(covered(runs, cols, idx) || spans(b, cols, idx));
                            }
                        }
                    } else {
                        assert(runs2 == runs.push(b));
                        assert forall|j: int| 0 <= j < runs2.len() implies run_ok(cells, cols, rows, #[trigger] runs2[j])
                            && run_end(runs2[j], cols) <= n by {
                            if j < runs.len() {
                                assert(runs2[j] == runs[j]);
                            }
                        }
                        assert forall|a: int, c: int| 0 <= a < c < runs2.len() implies run_end(#[trigger] runs2[a], cols) <= run_first(
                            #[trigger] runs2[c],
                            cols,
                        ) by {
                            assert(runs2[a] == runs[a]);
                            if c < runs.len() {
                                assert(runs2[c] == runs[c]);
                            }
                        }
                        assert forall|j: int| 0 <= j < runs2.len() implies run_end(#[trigger] runs2[j], cols) <= run_first(f, cols) by {
                            if j < runs.len() {
                                assert(runs2[j] == runs[j]);
                                assert(run_end(runs[j], cols) <= run_first(b, cols));
                            }
                        }
                        assert forall|idx: int| 0 <= idx < n && #[trigger] visible(cells, cols, rows, idx) implies covered(runs2, cols, idx) || (
                        cur2 matches Some(c) && spans(c, cols, idx)) by {
                            if idx < i {
                                if covered(runs, cols, idx) {
                                    let j = choose|j: int| 0 <= j < runs.len() && spans(#[trigger] runs[j], cols, idx);
                                    assert(runs2[j] == runs[j]);
                                } else {
                                    assert(runs2[runs.len() as int] == b);
                                }
                            }
                        }
                    }
                },
                None => {
                    assert forall|idx: int| 0 <= idx < n && #[trigger] visible(cells, cols, rows, idx) implies covered(runs2, cols, idx) || (
                    cur2 matches Some(c) && spans(c, cols, idx)) by {
                        if idx < i {
                            assert(covered(runs, cols, idx));
                        }
                    }
                },
            }
        }
    }
}

/// The runs and the open run put together hold the invariant's facts.
proof fn lemma_batch_final(cells: Seq<CellGlyph>, cols: nat, rows: nat)
    requires
        0 < cols <= i32::MAX,
        rows <= i32::MAX,
    ensures
        forall|j: int| 0 <= j < spec_batch(cells, cols, rows).len() ==> run_ok(cells, cols, rows, #[trigger] spec_batch(cells, cols, rows)[j]),
        forall|i: int, j: int|
            0 <= i < j < spec_batch(cells, cols, rows).len() ==> run_end(#[trigger] spec_batch(cells, cols, rows)[i], cols) <= run_first(
                #[trigger] spec_batch(cells, cols, rows)[j],
                cols,
            ),
        forall|idx: int|
            0 <= idx < cells.len() && #[trigger] visible(cells, cols, rows, idx) ==> covered(spec_batch(cells, cols, rows), cols, idx),
{
    let n = cells.len();
    lemma_batch_inv(cells, cols, rows, n);
    let (runs, cur) = batch_state(cells, cols, rows, n);
    let r = spec_batch(cells, cols, rows);
    match cur {
        Some(b) => {
            assert(r == runs.push(b));
            assert forall|j: int| 0 <= j < r.len() implies run_ok(cells, cols, rows, #[trigger] r[j]) by {
                if j < runs.len() {
                    assert(r[j] == runs[j]);
                }
            }
            assert forall|a: int, c: int| 0 <= a < c < r.len() implies run_end(#[trigger] r[a], cols) <= run_first(#[trigger] r[c], cols) by {
                assert(r[a] == runs[a]);
                if c < runs.len() {
                    assert(r[c] == runs[c]);
                }
            }
            assert forall|idx: int| 0 <= idx < cells.len() && #[trigger] visible(cells, cols, rows, idx) implies covered(r, cols, idx) by {
                if covered(runs, cols, idx) {
                    let j = choose|j: int| 0 <= j < runs.len() && spans(#[trigger] runs[j], cols, idx);
                    assert(r[j] == runs[j]);
                } else {
                    assert(r[runs.len() as int] == b);
                }
            }
        },
        None => {},
    }
}

/// Every run lies on one viewport line, holds at least one cell and as
/// many characters as cells, and its text is the characters of the
/// consecutive cells it spans, all drawn in the run's style.
pub proof fn law_runs_are_consecutive_cells(cells: Seq<CellGlyph>, cols: nat, rows: nat)
    requires
        0 < cols <= i32::MAX,
        rows <= i32::MAX,
    ensures
        forall|j: int| 0 <= j < spec_batch(cells, cols, rows).len() ==> run_ok(cells, cols, rows, #[trigger] spec_batch(cells, cols, rows)[j]),
{
    lemma_batch_final(cells, cols, rows);
}

/// Runs come in row-major order and do not overlap: each ends before the
/// next begins.
pub proof fn law_runs_row_major_disjoint(cells: Seq<CellGlyph>, cols: nat, rows: nat)
    requires
        0 < cols <= i32::MAX,
        rows <= i32::MAX,
    ensures
        forall|i: int, j: int|
            0 <= i < j < spec_batch(cells, cols, rows).len() ==> run_end(#[trigger] spec_batch(cells, cols, rows)[i], cols) <= run_first(
                #[trigger] spec_batch(cells, cols, rows)[j],
                cols,
            ),
{
    lemma_batch_final(cells, cols, rows);
}

/// No visible character is lost: every cell on a viewport line that
/// paints a character lies in some run.
pub proof fn law_runs_cover_visible_cells(cells: Seq<CellGlyph>, cols: nat, rows: nat)
    requires
        0 < cols <= i32::MAX,
        rows <= i32::MAX,
    ensures
        forall|idx: int|
            0 <= idx < cells.len() && #[trigger] visible(cells, cols, rows, idx) ==> covered(spec_batch(cells, cols, rows), cols, idx),
{
    lemma_batch_final(cells, cols, rows);
}

} // verus!
