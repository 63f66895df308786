//! Hyperlink hover: which cells to underline, and whether a click opens the
//! hovered link.
//!
//! Link identity is the identity of the shared hyperlink value: two cells
//! belong to one link when they hold the same shared value, not merely equal
//! text. Here that identity is a number per shared value.

use vstd::prelude::*;

verus! {

/// Consecutive cells of the hovered hyperlink on one visible row.
#[derive(Clone, Copy, Debug, PartialEq, Eq, Structural)]
pub struct LinkHoverSpan {
    pub vis_row: usize,
    pub col: usize,
    pub len: usize,
}

/// Whether a left click opens the link under the mouse. A lua binding that
/// does nothing wins, then one that opens the link; complete-or-open opens
/// only without a selection; otherwise the default binding opens without a
/// selection unless it is disabled.
pub open spec fn spec_click_opens_hovered_link(
    lua_opens: bool,
    lua_complete_or_open: bool,
    lua_nop: bool,
    has_selection: bool,
    default_blocked: bool,
) -> bool {
    if lua_nop {
        false
    } else if lua_opens {
        true
    } else if lua_complete_or_open {
        !has_selection
    } else {
        !has_selection && !default_blocked
    }
}

pub fn click_opens_hovered_link(
    lua_opens: bool,
    lua_complete_or_open: bool,
    lua_nop: bool,
    has_selection: bool,
    default_blocked: bool,
) -> (r: bool)
    ensures
        r == spec_click_opens_hovered_link(
            lua_opens,
            lua_complete_or_open,
            lua_nop,
            has_selection,
            default_blocked,
        ),
{
    if lua_nop {
        return false;
    }
    if lua_opens {
        return true;
    }
    if lua_complete_or_open {
        return !has_selection;
    }
    !has_selection && !default_blocked
}

/// Same link identity: both absent, or both the same shared value.
pub fn same_hyperlink(a: Option<u64>, b: Option<u64>) -> (r: bool)
    ensures
        r == (a == b),
{
    match (a, b) {
        (Some(x), Some(y)) => x == y,
        (None, None) => true,
        _ => false,
    }
}

/// A visible cell as the hover pass reads it: its column, its width in
/// columns, and the identity of its hyperlink.
#[derive(Clone, Copy, Debug, PartialEq, Eq)]
pub struct HoverCell {
    pub col: usize,
    pub width: usize,
    pub link: Option<u64>,
}

pub open spec fn cell_end(c: HoverCell) -> int {
    c.col + if c.width < 1 {
        1
    } else {
        c.width as int
    }
}

/// Cells in column order whose ends fit in `usize`.
pub open spec fn row_ok(cells: Seq<HoverCell>) -> bool {
    &&& forall|i: int, j: int| 0 <= i <= j < cells.len() ==> cells[i].col <= cells[j].col
    &&& forall|k: int| 0 <= k < cells.len() ==> cell_end(#[trigger] cells[k]) <= usize::MAX
}

pub open spec fn span_of(vis_row: usize, start: usize, end: int) -> LinkHoverSpan {
    LinkHoverSpan {
        vis_row,
        col: start,
        len: if end - start < 1 {
            1
        } else {
            (end - start) as usize
        },
    }
}

/// After reading the first `k` cells of a row: the spans closed so far, the
/// start of the open run of hovered cells, and the end of its last cell.
pub open spec fn row_scan(cells: Seq<HoverCell>, want: u64, vis_row: usize, k: nat) -> (
    Seq<LinkHoverSpan>,
    Option<usize>,
    int,
)
    decreases k,
{
    if k == 0 {
        (Seq::empty(), None, 0)
    } else {
        let (spans, start, end) = row_scan(cells, want, vis_row, (k - 1) as nat);
        let c = cells[k - 1];
        if c.link == Some(want) {
            (spans, if start is None {
                Some(c.col)
            } else {
                start
            }, cell_end(c))
        } else {
            match start {
                Some(st) => (spans.push(span_of(vis_row, st, end)), None, end),
                None => (spans, None, end),
            }
        }
    }
}

/// The underline spans of one row: one per maximal run of consecutive cells
/// holding the hovered link, from the first cell's column to the last
/// cell's end (at least one column).
pub open spec fn row_spans(cells: Seq<HoverCell>, want: u64, vis_row: usize) -> Seq<LinkHoverSpan> {
    let (spans, start, end) = row_scan(cells, want, vis_row, cells.len());
    match start {
        Some(st) => spans.push(span_of(vis_row, st, end)),
        None => spans,
    }
}

/// The spans of the first `n` rows, row after row.
pub open spec fn rows_spans(lines: Seq<Vec<HoverCell>>, want: u64, n: nat) -> Seq<LinkHoverSpan>
    decreases n,
{
    if n == 0 {
        Seq::empty()
    } else {
        rows_spans(lines, want, (n - 1) as nat) + row_spans(lines[n - 1]@, want, (n - 1) as usize)
    }
}

/// Underline spans for the hovered link, row by row; none without a hover.
pub fn hover_underline_spans(lines: &[Vec<HoverCell>], highlight: Option<u64>) -> (r: Vec<
    LinkHoverSpan,
>)
    requires
        forall|v: int| 0 <= v < lines@.len() ==> row_ok(#[trigger] lines@[v]@),
    ensures
        r@ == match highlight {
            None => Seq::empty(),
            Some(want) => rows_spans(lines@, want, lines@.len()),
        },
{
    let want = match highlight {
        None => {
            return Vec::new();
        },
        Some(w) => w,
    };
    let mut out: Vec<LinkHoverSpan> = Vec::new();
    let mut vis_row: usize = 0;
    while vis_row < lines.len()
        invariant
            0 <= vis_row <= lines@.len(),
            forall|v: int| 0 <= v < lines@.len() ==> row_ok(#[trigger] lines@[v]@),
            out@ == rows_spans(lines@, want, vis_row as nat),
        decreases lines@.len() - vis_row,
    {
        let cells = &lines[vis_row];
        assert(row_ok(cells@));
        let ghost before = out@;
        let mut run_start: Option<usize> = None;
        let mut run_end: usize = 0;
        let mut k: usize = 0;
        while k < cells.len()
            invariant
                0 <= k <= cells@.len(),
                row_ok(cells@),
                ({
                    let (spans, start, end) = row_scan(cells@, want, vis_row, k as nat);
                    &&& out@ == before + spans
                    &&& run_start == start
                    &&& run_end == end
                    &&& start matches Some(st) ==> st <= end
                    &&& start matches Some(st) ==> k > 0 && st <= cells@[k - 1].col
                }),
            decreases cells@.len() - k,
        {
            let c = cells[k];
            proof {
                assert(cell_end(cells@[k as int]) <= usize::MAX);
                if k > 0 {
                    assert(cells@[k - 1].col <= cells@[k as int].col);
                }
            }
            if c.link == Some(want) {
                if run_start.is_none() {
                    run_start = Some(c.col);
                }
                run_end = c.col + if c.width < 1 {
                    1
                } else {
                    c.width
                };
            } else if let Some(start) = run_start {
                run_start = None;
                let len = if run_end - start < 1 {
                    1
                } else {
                    run_end - start
                };
                out.push(LinkHoverSpan { vis_row, col: start, len });
            }
            k += 1;
        }
        if let Some(start) = run_start {
            let len = if run_end - start < 1 {
                1
            } else {
                run_end - start
            };
            out.push(LinkHoverSpan { vis_row, col: start, len });
        }
        assert(out@ =~= rows_spans(lines@, want, (vis_row + 1) as nat));
        vis_row += 1;
    }
    out
}

} // verus!
