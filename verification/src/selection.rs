//! Text selection geometry of a terminal pane: positions, ranges in reading
//! order, the columns a range covers on a row, and the selection state.

use vstd::prelude::*;

use crate::find::{find_bytes, views};
use crate::picker::contains_text;
use crate::text::chars_of;

verus! {

/// A cell position: stable row, then column.
#[derive(Clone, Copy, Debug, Default, PartialEq, Eq, Structural)]
pub struct CellPos {
    pub y: isize,
    pub x: usize,
}

/// Reading order: by row, then by column.
pub open spec fn pos_le(a: CellPos, b: CellPos) -> bool {
    a.y < b.y || (a.y == b.y && a.x <= b.x)
}

pub fn cell_pos_le(a: CellPos, b: CellPos) -> (r: bool)
    ensures
        r == pos_le(a, b),
{
    a.y < b.y || (a.y == b.y && a.x <= b.x)
}

/// A selection from `start` to `end`, in either order.
#[derive(Clone, Copy, Debug, PartialEq, Eq, Structural)]
pub struct SelRange {
    pub start: CellPos,
    pub end: CellPos,
}

pub open spec fn spec_normalize(r: SelRange) -> SelRange {
    if pos_le(r.start, r.end) {
        r
    } else {
        SelRange { start: r.end, end: r.start }
    }
}

/// Columns `[lo, hi)` of `row` that the normalized range covers; rows in the
/// middle run to the end of the line (`usize::MAX`).
pub open spec fn spec_cols_for_row(r: SelRange, row: isize) -> (usize, usize) {
    let n = spec_normalize(r);
    if row < n.start.y || row > n.end.y {
        (0, 0)
    } else if n.start.y == n.end.y {
        let (lo, hi) = if n.start.x <= n.end.x {
            (n.start.x, n.end.x)
        } else {
            (n.end.x, n.start.x)
        };
        (lo, sat_inc(hi))
    } else if row == n.end.y {
        (0, sat_inc(n.end.x))
    } else if row == n.start.y {
        (n.start.x, usize::MAX)
    } else {
        (0, usize::MAX)
    }
}

pub open spec fn sat_inc(x: usize) -> usize {
    if x == usize::MAX {
        usize::MAX
    } else {
        (x + 1) as usize
    }
}

fn saturating_inc(x: usize) -> (r: usize)
    ensures
        r == sat_inc(x),
{
    if x == usize::MAX {
        usize::MAX
    } else {
        x + 1
    }
}

/// The painted column span `(start, end)` of `row` within `cols` columns,
/// as 16-bit columns; `(u16::MAX, u16::MAX)` when nothing is painted.
pub open spec fn spec_sel_cols(r: SelRange, row: isize, cols: usize) -> (u16, u16) {
    let (lo, hi) = spec_cols_for_row(r, row);
    if lo >= hi {
        (u16::MAX, u16::MAX)
    } else {
        let start = (if lo < cols {
            lo
        } else {
            cols
        }) as u16;
        let end = (if hi < cols {
            hi
        } else {
            cols
        }) as u16;
        if start >= end {
            (u16::MAX, u16::MAX)
        } else {
            (start, end)
        }
    }
}

impl SelRange {
    /// The same range with `start` first in reading order.
    pub fn normalize(self) -> (r: SelRange)
        ensures
            r == spec_normalize(self),
            pos_le(r.start, r.end),
    {
        if cell_pos_le(self.start, self.end) {
            self
        } else {
            SelRange { start: self.end, end: self.start }
        }
    }

    /// Columns of `row` that the range covers, as a half-open range.
    pub fn cols_for_row(self, row: isize) -> (r: std::ops::Range<usize>)
        ensures
            (r.start, r.end) == spec_cols_for_row(self, row),
    {
        let n = self.normalize();
        if row < n.start.y || row > n.end.y {
            0..0
        } else if n.start.y == n.end.y {
            let (lo, hi) = if n.start.x <= n.end.x {
                (n.start.x, n.end.x)
            } else {
                (n.end.x, n.start.x)
            };
            lo..saturating_inc(hi)
        } else if row == n.end.y {
            0..saturating_inc(n.end.x)
        } else if row == n.start.y {
            n.start.x..usize::MAX
        } else {
            0..usize::MAX
        }
    }

    /// Painted columns of `row`, clipped to `cols`.
    pub fn sel_cols(self, row: isize, cols: usize) -> (r: (u16, u16))
        ensures
            r == spec_sel_cols(self, row, cols),
    {
        let range = self.cols_for_row(row);
        if range.start >= range.end {
            return (u16::MAX, u16::MAX);
        }
        let start = (if range.start < cols {
            range.start
        } else {
            cols
        }) as u16;
        let end = (if range.end < cols {
            range.end
        } else {
            cols
        }) as u16;
        if start >= end {
            (u16::MAX, u16::MAX)
        } else {
            (start, end)
        }
    }
}

pub open spec fn pos_min(a: CellPos, b: CellPos) -> CellPos {
    if pos_le(a, b) {
        a
    } else {
        b
    }
}

pub open spec fn pos_max(a: CellPos, b: CellPos) -> CellPos {
    if pos_le(a, b) {
        b
    } else {
        a
    }
}

/// The smallest range covering both ranges.
pub fn union_range(a: SelRange, b: SelRange) -> (r: SelRange)
    ensures
        r == (SelRange {
            start: pos_min(spec_normalize(a).start, spec_normalize(b).start),
            end: pos_max(spec_normalize(a).end, spec_normalize(b).end),
        }),
{
    let a = a.normalize();
    let b = b.normalize();
    SelRange {
        start: if cell_pos_le(a.start, b.start) {
            a.start
        } else {
            b.start
        },
        end: if cell_pos_le(a.end, b.end) {
            b.end
        } else {
            a.end
        },
    }
}

/// How a drag extends the selection.
#[derive(Clone, Copy, Debug, Default, PartialEq, Eq, Structural)]
pub enum SelMode {
    #[default]
    Cell,
    Word,
    Line,
}

#[derive(Clone, Copy, Debug, Default)]
pub struct Selection {
    pub origin: Option<CellPos>,
    pub range: Option<SelRange>,
    pub dragging: bool,
    pub mode: SelMode,
}

impl Selection {
    /// Drop the selection; true when anything was set.
    pub fn clear(&mut self) -> (r: bool)
        ensures
            r == (old(self).range is Some || old(self).origin is Some || old(self).dragging),
            final(self).range is None,
            final(self).origin is None,
            !final(self).dragging,
            final(self).mode == old(self).mode,
    {
        let changed = self.range.is_some() || self.origin.is_some() || self.dragging;
        self.range = None;
        self.origin = None;
        self.dragging = false;
        changed
    }

    /// A compact key of the normalized range, columns clamped to `u32`.
    pub fn fingerprint(&self) -> (r: Option<(i64, u32, i64, u32)>)
        ensures
            r == match self.range {
                None => None,
                Some(range) => {
                    let n = spec_normalize(range);
                    Some(
                        (
                            n.start.y as i64,
                            (if n.start.x < u32::MAX {
                                n.start.x
                            } else {
                                u32::MAX as usize
                            }) as u32,
                            n.end.y as i64,
                            (if n.end.x < u32::MAX {
                                n.end.x
                            } else {
                                u32::MAX as usize
                            }) as u32,
                        ),
                    )
                },
            },
    {
        let r = match self.range {
            None => {
                return None;
            },
            Some(range) => range.normalize(),
        };
        let sx = if r.start.x < u32::MAX as usize {
            r.start.x
        } else {
            u32::MAX as usize
        };
        let ex = if r.end.x < u32::MAX as usize {
            r.end.x
        } else {
            u32::MAX as usize
        };
        Some((r.start.y as i64, sx as u32, r.end.y as i64, ex as u32))
    }
}

/// Normalizing twice changes nothing more, and a normalized range covers
/// the same rows and columns as the range it came from.
pub proof fn lemma_normalize(r: SelRange, row: isize)
    ensures
        spec_normalize(spec_normalize(r)) == spec_normalize(r),
        spec_cols_for_row(spec_normalize(r), row) == spec_cols_for_row(r, row),
        spec_normalize(SelRange { start: r.end, end: r.start }) == spec_normalize(r) || r.start == r.end,
{
}

/// Keyboard selection state: the cursor, whether a visual selection is on,
/// and where it started.
#[derive(Clone, Copy, Debug, PartialEq, Eq, Structural)]
pub struct CopyMode {
    pub pos: CellPos,
    pub visual: bool,
    pub anchor: CellPos,
}

/// The selection that copy mode shows: from the anchor to the cursor in
/// visual mode, else the cursor's cell.
pub open spec fn spec_copy_mode_selection(mode: CopyMode) -> SelRange {
    if mode.visual {
        SelRange { start: mode.anchor, end: mode.pos }
    } else {
        SelRange { start: mode.pos, end: mode.pos }
    }
}

pub fn copy_mode_selection(mode: CopyMode) -> (r: SelRange)
    ensures
        r == spec_copy_mode_selection(mode),
{
    if mode.visual {
        SelRange { start: mode.anchor, end: mode.pos }
    } else {
        SelRange { start: mode.pos, end: mode.pos }
    }
}

/// Whether cell `col` of a line whose cells hold the texts `cells` is part
/// of a word: it exists and holds text, and a one-character text does not
/// occur in `boundary`.
pub open spec fn spec_is_word_cell(cells: Seq<Seq<char>>, col: int, boundary: Seq<char>) -> bool {
    0 <= col < cells.len() && cells[col].len() > 0 && (cells[col].len() == 1 ==> !contains_text(
        boundary,
        cells[col],
    ))
}

fn is_word_cell(cells: &Vec<String>, col: usize, boundary: &str) -> (r: bool)
    ensures
        r == spec_is_word_cell(views(cells@), col as int, boundary@),
{
    if col >= cells.len() {
        return false;
    }
    let s = cells[col].as_str();
    let n = chars_of(s).len();
    if n == 0 {
        false
    } else if n == 1 {
        proof {
            reveal(contains_text);
        }
        find_bytes(boundary.as_bytes(), s.as_bytes()).is_none()
    } else {
        true
    }
}

/// The word around column `click` of a line: the widest run of word cells
/// that contains it, as first and last column; `None` when the clicked
/// cell is not part of a word.
pub open spec fn spec_word_bounds(cells: Seq<Seq<char>>, click: int, boundary: Seq<char>, found: Option<(usize, usize)>) -> bool {
    match found {
        None => !spec_is_word_cell(cells, click, boundary),
        Some((s, e)) => {
            &&& s <= click <= e
            &&& forall|c: int| s <= c <= e ==> spec_is_word_cell(cells, c, boundary)
            &&& (s == 0 || !spec_is_word_cell(cells, s - 1, boundary))
            &&& !spec_is_word_cell(cells, e + 1, boundary)
        },
    }
}

/// The word around column `click` of a line with cell texts `cells`.
pub fn word_bounds(cells: &Vec<String>, click: usize, boundary: &str) -> (r: Option<(usize, usize)>)
    ensures
        spec_word_bounds(views(cells@), click as int, boundary@, r),
{
    let ghost cv = views(cells@);
    if !is_word_cell(cells, click, boundary) {
        return None;
    }
    let mut start = click;
    while start > 0 && is_word_cell(cells, start - 1, boundary)
        invariant
            cv == views(cells@),
            start <= click < cells@.len(),
            forall|c: int| start <= c <= click ==> spec_is_word_cell(cv, c, boundary@),
        decreases start,
    {
        start -= 1;
    }
    let mut end = click;
    while end < cells.len() - 1 && is_word_cell(cells, end + 1, boundary)
        invariant
            cv == views(cells@),
            start <= click <= end < cells@.len(),
            forall|c: int| start <= c <= end ==> spec_is_word_cell(cv, c, boundary@),
        decreases cells@.len() - end,
    {
        end += 1;
    }
    Some((start, end))
}

/// The rows of a logical line that starts at row `first_row` and spans
/// `physical_rows` rows, from its first cell to the end of its last row.
pub open spec fn spec_line_bounds(first_row: isize, physical_rows: usize) -> SelRange {
    let last = if physical_rows >= 1 {
        physical_rows - 1
    } else {
        0
    };
    SelRange { start: CellPos { y: first_row, x: 0 }, end: CellPos { y: (first_row + last) as isize, x: usize::MAX } }
}

/// The whole logical line starting at row `first_row` and spanning
/// `physical_rows` rows.
pub fn line_bounds(first_row: isize, physical_rows: usize) -> (r: SelRange)
    requires
        physical_rows <= isize::MAX,
        first_row + physical_rows <= isize::MAX + 1,
    ensures
        r == spec_line_bounds(first_row, physical_rows),
{
    let last: usize = if physical_rows >= 1 {
        physical_rows - 1
    } else {
        0
    };
    SelRange { start: CellPos { y: first_row, x: 0 }, end: CellPos { y: first_row + last as isize, x: usize::MAX } }
}

} // verus!
