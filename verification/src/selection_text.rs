//! The text of a selection: the selected columns of each row, rows of one
//! logical line run together, logical lines separated by newlines unless
//! the previous one ran on past its last row, trailing blanks trimmed at
//! the end of each logical line.

use vstd::prelude::*;

use crate::pane_text::{trim_end, trimmed_end};
use crate::selection::{spec_cols_for_row, spec_normalize, SelRange};
use crate::text::{push_char, push_str};

verus! {

/// One cell of a row: its text and whether the line wraps after it.
pub struct RowCell {
    pub text: String,
    pub wrapped: bool,
}

/// The rows of one logical line, the first of them at row `first_row`.
pub struct LogicalRows {
    pub first_row: isize,
    pub rows: Vec<Vec<RowCell>>,
}

pub open spec fn cell_views(row: Seq<RowCell>) -> Seq<(Seq<char>, bool)> {
    row.map_values(|c: RowCell| (c.text@, c.wrapped))
}

/// The texts of cells `start..end` of a row (those that exist), joined.
pub open spec fn cols_text(cells: Seq<(Seq<char>, bool)>, start: int, end: int) -> Seq<char>
    decreases end - start,
{
    if start >= end || start >= cells.len() || start < 0 {
        Seq::empty()
    } else {
        cells[start].0 + cols_text(cells, start + 1, end)
    }
}

/// `a - 1`, at least zero.
pub open spec fn dec(a: int) -> int {
    if a >= 1 {
        a - 1
    } else {
        0
    }
}

/// Reading row `y` of a logical line (`last` when it is the line's last
/// row): a row outside `first..last_row` changes nothing; else its
/// selected columns are added (trimmed at the end on the last row), and
/// whether the text runs on is whether the last selected cell is the row's
/// last cell and wraps.
pub open spec fn row_step(
    state: (Seq<char>, bool),
    sel: SelRange,
    first: isize,
    last_row: int,
    y: int,
    cells: Seq<(Seq<char>, bool)>,
    last: bool,
) -> (Seq<char>, bool) {
    if y < first || y >= last_row {
        state
    } else {
        let (b, e) = spec_cols_for_row(sel, y as isize);
        let last_phys = dec(cells.len() as int);
        let last_col = if dec(e as int) < last_phys {
            dec(e as int)
        } else {
            last_phys
        };
        let span = cols_text(cells, b as int, e as int);
        (
            state.0 + (if last {
                trim_end(span)
            } else {
                span
            }),
            last_col == last_phys && last_col < cells.len() && cells[last_col].1,
        )
    }
}

/// Reading rows `0..k` of a logical line.
pub open spec fn rows_state(
    state: (Seq<char>, bool),
    sel: SelRange,
    first: isize,
    last_row: int,
    line_first: int,
    rows: Seq<Seq<(Seq<char>, bool)>>,
    k: int,
) -> (Seq<char>, bool)
    decreases k,
{
    if k <= 0 {
        state
    } else {
        row_step(
            rows_state(state, sel, first, last_row, line_first, rows, k - 1),
            sel,
            first,
            last_row,
            line_first + k - 1,
            rows[k - 1],
            k - 1 == dec(rows.len() as int),
        )
    }
}

/// Reading one logical line: a newline first when there is text and the
/// previous line did not run on.
pub open spec fn line_state(
    state: (Seq<char>, bool),
    sel: SelRange,
    first: isize,
    last_row: int,
    line_first: int,
    rows: Seq<Seq<(Seq<char>, bool)>>,
) -> (Seq<char>, bool) {
    let start = if state.0.len() > 0 && !state.1 {
        (state.0.push('\n'), state.1)
    } else {
        state
    };
    rows_state(start, sel, first, last_row, line_first, rows, rows.len() as int)
}

pub open spec fn line_view(l: LogicalRows) -> (int, Seq<Seq<(Seq<char>, bool)>>) {
    (l.first_row as int, l.rows@.map_values(|r: Vec<RowCell>| cell_views(r@)))
}

/// Reading logical lines `0..k`.
pub open spec fn lines_state(sel: SelRange, first: isize, last_row: int, lines: Seq<(int, Seq<Seq<(Seq<char>, bool)>>)>, k: int) -> (
    Seq<char>,
    bool,
)
    decreases k,
{
    if k <= 0 {
        (Seq::empty(), false)
    } else {
        let prev = lines_state(sel, first, last_row, lines, k - 1);
        line_state(prev, sel, first, last_row, lines[k - 1].0, lines[k - 1].1)
    }
}

/// The text of selection `sel` over the logical lines `lines` that cover
/// its rows.
pub open spec fn spec_selection_text(sel: SelRange, lines: Seq<LogicalRows>) -> Seq<char> {
    let n = spec_normalize(sel);
    let views = lines.map_values(|l: LogicalRows| line_view(l));
    lines_state(sel, n.start.y, n.end.y + 1, views, lines.len() as int).0
}

fn cols_string(cells: &Vec<RowCell>, start: usize, end: usize) -> (r: String)
    ensures
        r@ == cols_text(cell_views(cells@), start as int, end as int),
{
    let ghost cv = cell_views(cells@);
    let stop = if end < cells.len() {
        end
    } else {
        cells.len()
    };
    proof {
        lemma_cols_text_prefix(cv, start as int, end as int, stop as int);
    }
    let mut out = String::new();
    let mut j = start;
    while j < stop
        invariant
            cv == cell_views(cells@),
            start <= j,
            stop <= cells@.len(),
            out@ + cols_text(cv, j as int, stop as int) == cols_text(cv, start as int, stop as int),
        decreases stop - j,
    {
        let ghost before = out@;
        push_str(&mut out, cells[j].text.as_str());
        proof {
            assert(cv[j as int].0 == cells@[j as int].text@);
            assert(out@ + cols_text(cv, j + 1, stop as int) =~= before + cols_text(cv, j as int, stop as int));
        }
        j += 1;
    }
    assert(out@ + cols_text(cv, j as int, stop as int) =~= out@);
    out
}

proof fn lemma_cols_text_prefix(cv: Seq<(Seq<char>, bool)>, start: int, end: int, stop: int)
    requires
        stop == (if end < cv.len() { end } else { cv.len() as int }),
        start >= 0,
    ensures
        cols_text(cv, start, end) == cols_text(cv, start, stop),
    decreases end - start,
{
    if start < end && start < cv.len() {
        lemma_cols_text_prefix(cv, start + 1, end, stop);
    }
}

/// Reads the rows of one logical line into `out`, as `rows_state`.
fn read_rows(
    out: &mut String,
    wrapped: &mut bool,
    sel: SelRange,
    first: isize,
    last_row: isize,
    line: &LogicalRows,
)
    requires
        line.rows@.len() <= isize::MAX,
        line.first_row + line.rows@.len() <= isize::MAX + 1,
    ensures
        (final(out)@, *final(wrapped)) == rows_state(
            (old(out)@, *old(wrapped)),
            sel,
            first,
            last_row as int,
            line_view(*line).0,
            line_view(*line).1,
            line.rows@.len() as int,
        ),
{
    let ghost lv = line_view(*line);
    let ghost start = (out@, *wrapped);
    let n = line.rows.len();
    let last_idx: usize = if n >= 1 {
        n - 1
    } else {
        0
    };
    let mut idx: usize = 0;
    while idx < n
        invariant
            lv == line_view(*line),
            n == line.rows@.len(),
            n <= isize::MAX,
            line.first_row + n <= isize::MAX + 1,
            last_idx == dec(n as int),
            0 <= idx <= n,
            (out@, *wrapped) == rows_state(start, sel, first, last_row as int, lv.0, lv.1, idx as int),
        decreases n - idx,
    {
        let phys = &line.rows[idx];
        let ghost cells = cell_views(phys@);
        proof {
            assert(lv.1[idx as int] == cells);
        }
        let this_row = line.first_row + idx as isize;
        if this_row >= first && this_row < last_row {
            let cols = sel.cols_for_row(this_row);
            let plen = phys.len();
            let last_phys: usize = if plen >= 1 {
                plen - 1
            } else {
                0
            };
            let e1: usize = if cols.end >= 1 {
                cols.end - 1
            } else {
                0
            };
            let last_col = if e1 < last_phys {
                e1
            } else {
                last_phys
            };
            let span = cols_string(phys, cols.start, cols.end);
            if idx == last_idx {
                let t = trimmed_end(span.as_str());
                push_str(out, t.as_str());
            } else {
                push_str(out, span.as_str());
            }
            *wrapped = last_col == last_phys && last_col < plen && phys[last_col].wrapped;
            proof {
                if last_col < plen {
                    assert(cells[last_col as int].1 == phys@[last_col as int].wrapped);
                }
            }
        }
        idx += 1;
    }
}

/// The text of selection `sel`, given the logical lines that cover its
/// rows, in order.
pub fn selection_text(sel: SelRange, lines: &Vec<LogicalRows>) -> (r: String)
    requires
        spec_normalize(sel).end.y < isize::MAX,
        forall|i: int|
            0 <= i < lines@.len() ==> (#[trigger] lines@[i]).rows@.len() <= isize::MAX && lines@[i].first_row
                + lines@[i].rows@.len() <= isize::MAX + 1,
    ensures
        r@ == spec_selection_text(sel, lines@),
{
    let n = sel.normalize();
    let first = n.start.y;
    let last_row = n.end.y + 1;
    let ghost views = lines@.map_values(|l: LogicalRows| line_view(l));
    let mut out = String::new();
    let mut wrapped = false;
    let mut i: usize = 0;
    while i < lines.len()
        invariant
            views == lines@.map_values(|l: LogicalRows| line_view(l)),
            first == spec_normalize(sel).start.y,
            last_row == spec_normalize(sel).end.y + 1,
            forall|k: int|
                0 <= k < lines@.len() ==> (#[trigger] lines@[k]).rows@.len() <= isize::MAX && lines@[k].first_row
                    + lines@[k].rows@.len() <= isize::MAX + 1,
            0 <= i <= lines@.len(),
            (out@, wrapped) == lines_state(sel, first, last_row as int, views, i as int),
        decreases lines@.len() - i,
    {
        let line = &lines[i];
        let ghost before = (out@, wrapped);
        if !out.as_str().is_empty() && !wrapped {
            push_char(&mut out, '\n');
        }
        proof {
            assert(views[i as int] == line_view(*line));
        }
        read_rows(&mut out, &mut wrapped, sel, first, last_row, line);
        i += 1;
    }
    out
}

} // verus!
