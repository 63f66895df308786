//! A pane's search state: the query, its hits, which hit is current, and
//! the hits to highlight in the visible rows.

use vstd::prelude::*;

use crate::cycle::{spec_wrap_index, wrap_index};
use crate::find::{find_bytes, lowercase, lowercase_str, views, SearchHit};
use crate::pane_text::{trim_end, trimmed_end};
use crate::picker::contains_text;
use crate::text::{chars_of, push_char};

verus! {

/// The search bar state of a pane.
pub struct PaneSearch {
    query: String,
    case_sensitive: bool,
    hits: Vec<SearchHit>,
    current: usize,
}

/// A hit to draw: its row within the viewport, first cell, width, and
/// whether it is the current hit.
#[derive(Clone, Copy, Debug, PartialEq, Eq, Structural)]
pub struct SearchHighlight {
    pub vis_row: usize,
    pub col: usize,
    pub len: usize,
    pub current: bool,
}

/// The abstract search state.
pub struct PaneSearchView {
    pub query: Seq<char>,
    pub case_sensitive: bool,
    pub hits: Seq<SearchHit>,
    pub current: int,
}

impl View for PaneSearch {
    type V = PaneSearchView;

    closed spec fn view(&self) -> PaneSearchView {
        PaneSearchView {
            query: self.query@,
            case_sensitive: self.case_sensitive,
            hits: self.hits@,
            current: self.current as int,
        }
    }
}

impl PaneSearchView {
    /// The current hit is one of the hits, or `0` when there are none.
    pub open spec fn wf(self) -> bool {
        if self.hits.len() == 0 {
            self.current == 0
        } else {
            0 <= self.current < self.hits.len()
        }
    }
}

/// `current` kept within `n` hits: the last one past the end, `0` without
/// hits.
pub open spec fn clamp_current(current: usize, n: nat) -> int {
    if n == 0 {
        0
    } else if current < n {
        current as int
    } else {
        n - 1
    }
}

/// The hits that fall in rows `top..top + rows`, in order, with their
/// index among all hits.
pub open spec fn visible_highlights(hits: Seq<SearchHit>, current: int, top: isize, rows: usize) -> Seq<
    SearchHighlight,
>
    decreases hits.len(),
{
    if hits.len() == 0 {
        Seq::empty()
    } else {
        let i = hits.len() - 1;
        let h = hits[i];
        let rest = visible_highlights(hits.drop_last(), current, top, rows);
        if top <= h.y < top + rows {
            rest.push(
                SearchHighlight {
                    vis_row: (h.y - top) as usize,
                    col: h.x,
                    len: if h.len >= 1 {
                        h.len
                    } else {
                        1
                    },
                    current: i == current,
                },
            )
        } else {
            rest
        }
    }
}

impl PaneSearch {
    /// A search for `query` with `hits`, keeping hit `current` when it
    /// exists (else the last one). Returns the row of the current hit, to
    /// scroll to.
    pub fn new(query: String, case_sensitive: bool, hits: Vec<SearchHit>, current: usize) -> (r: (
        PaneSearch,
        Option<isize>,
    ))
        ensures
            r.0@.query == query@,
            r.0@.case_sensitive == case_sensitive,
            r.0@.hits == hits@,
            r.0@.current == clamp_current(current, hits@.len()),
            r.0@.wf(),
            r.1 == (if hits@.len() == 0 {
                None
            } else {
                Some(hits@[clamp_current(current, hits@.len())].y)
            }),
    {
        let cur = if hits.len() == 0 {
            0
        } else if current < hits.len() {
            current
        } else {
            hits.len() - 1
        };
        let jump = if cur < hits.len() {
            Some(hits[cur].y)
        } else {
            None
        };
        (PaneSearch { query, case_sensitive, hits, current: cur }, jump)
    }

    /// Moves the current hit by `delta`, going round at both ends; returns
    /// the row of the new current hit, or `None` without hits.
    pub fn step(&mut self, delta: isize) -> (r: Option<isize>)
        requires
            old(self)@.wf(),
            old(self)@.hits.len() <= isize::MAX,
            isize::MIN <= old(self)@.current + delta <= isize::MAX,
        ensures
            final(self)@.wf(),
            final(self)@.query == old(self)@.query,
            final(self)@.case_sensitive == old(self)@.case_sensitive,
            final(self)@.hits == old(self)@.hits,
            old(self)@.hits.len() == 0 ==> final(self)@.current == old(self)@.current && r is None,
            old(self)@.hits.len() > 0 ==> final(self)@.current == spec_wrap_index(
                old(self)@.current as usize,
                delta,
                old(self)@.hits.len() as usize,
            ) && r == Some(old(self)@.hits[final(self)@.current].y),
    {
        if self.hits.len() == 0 {
            return None;
        }
        self.current = wrap_index(self.current, delta, self.hits.len());
        Some(self.hits[self.current].y)
    }

    /// The query, the current hit's number counted from one (`0` without
    /// hits), the number of hits, and case sensitivity.
    pub fn status(&self) -> (r: (String, usize, usize, bool))
        requires
            self@.wf(),
        ensures
            r.0@ == self@.query,
            r.1 == (if self@.hits.len() == 0 {
                0
            } else {
                self@.current + 1
            }),
            r.2 == self@.hits.len(),
            r.3 == self@.case_sensitive,
    {
        let shown = if self.hits.len() == 0 {
            0
        } else {
            self.current + 1
        };
        (self.query.clone(), shown, self.hits.len(), self.case_sensitive)
    }

    pub fn query(&self) -> (r: &str)
        ensures
            r@ == self@.query,
    {
        self.query.as_str()
    }

    pub fn hits(&self) -> (r: &Vec<SearchHit>)
        ensures
            r@ == self@.hits,
    {
        &self.hits
    }

    /// The current hit, if any.
    pub fn current_hit(&self) -> (r: Option<SearchHit>)
        requires
            self@.wf(),
        ensures
            r == (if self@.hits.len() == 0 {
                None
            } else {
                Some(self@.hits[self@.current])
            }),
    {
        if self.hits.len() == 0 {
            None
        } else {
            Some(self.hits[self.current])
        }
    }

    /// The hits to highlight in a viewport of `rows` rows starting at row
    /// `top`; none for an empty query.
    pub fn highlights(&self, top: isize, rows: usize) -> (r: Vec<SearchHighlight>)
        requires
            rows <= isize::MAX,
        ensures
            r@ == (if self@.query.len() == 0 {
                Seq::empty()
            } else {
                visible_highlights(
                    self@.hits,
                    self@.current,
                    top,
                    (if top + rows <= isize::MAX {
                        rows as int
                    } else {
                        isize::MAX - top
                    }) as usize,
                )
            }),
    {
        if self.query.as_str().is_empty() || self.hits.len() == 0 {
            proof {
                if self.hits@.len() == 0 {
                    assert(visible_highlights(self.hits@, self.current as int, top, 0) =~= Seq::empty());
                }
            }
            return Vec::new();
        }
        let bot: isize = if top <= isize::MAX - (rows as isize) {
            top + rows as isize
        } else {
            isize::MAX
        };
        let ghost span: usize = (bot - top) as usize;
        let mut out: Vec<SearchHighlight> = Vec::new();
        let mut i: usize = 0;
        while i < self.hits.len()
            invariant
                0 <= i <= self.hits@.len(),
                top <= bot,
                bot - top <= isize::MAX,
                span == bot - top,
                out@ == visible_highlights(self.hits@.take(i as int), self.current as int, top, span),
            decreases self.hits@.len() - i,
        {
            let h = self.hits[i];
            proof {
                assert(self.hits@.take(i + 1).drop_last() =~= self.hits@.take(i as int));
                assert(self.hits@.take(i + 1)[i as int] == h);
            }
            if h.y >= top && h.y < bot {
                out.push(
                    SearchHighlight {
                        vis_row: (h.y - top) as usize,
                        col: h.x,
                        len: if h.len >= 1 {
                            h.len
                        } else {
                            1
                        },
                        current: i == self.current,
                    },
                );
            }
            i += 1;
        }
        assert(self.hits@.take(self.hits@.len() as int) =~= self.hits@);
        out
    }
}

/// The first row a pane paints: the scrolled-to row while it is above the
/// live screen (but not above the scrollback), else the live screen's top.
pub open spec fn spec_paint_top(viewport: Option<isize>, physical_top: isize, scrollback_top: isize) -> isize {
    match viewport {
        Some(pos) => if pos < physical_top {
            if pos >= scrollback_top {
                pos
            } else {
                scrollback_top
            }
        } else {
            physical_top
        },
        None => physical_top,
    }
}

/// The first row a pane paints.
pub fn paint_top(viewport: Option<isize>, physical_top: isize, scrollback_top: isize) -> (r: isize)
    ensures
        r == spec_paint_top(viewport, physical_top, scrollback_top),
{
    match viewport {
        Some(pos) => if pos < physical_top {
            if pos >= scrollback_top {
                pos
            } else {
                scrollback_top
            }
        } else {
            physical_top
        },
        None => physical_top,
    }
}

/// Whether row `row` is outside the viewport of `rows` rows from `top`
/// (the end saturating), so the pane must scroll to show it.
pub open spec fn spec_needs_scroll(row: isize, top: isize, rows: usize) -> bool {
    let bot = if top + rows <= isize::MAX {
        top + rows
    } else {
        isize::MAX as int
    };
    !(top <= row < bot)
}

/// Whether the pane must scroll to show row `row`.
pub fn needs_scroll(row: isize, top: isize, rows: usize) -> (r: bool)
    requires
        rows <= isize::MAX,
    ensures
        r == spec_needs_scroll(row, top, rows),
{
    let bot: isize = if top <= isize::MAX - (rows as isize) {
        top + rows as isize
    } else {
        isize::MAX
    };
    !(row >= top && row < bot)
}

/// The characters of `line` from cell `x`, `len` of them (at least one);
/// `None` when that is nothing.
pub open spec fn spec_hit_text(line: Seq<char>, x: usize, len: usize) -> Option<Seq<char>> {
    let n: int = if len >= 1 {
        len as int
    } else {
        1
    };
    let start: int = if x <= line.len() {
        x as int
    } else {
        line.len() as int
    };
    let end: int = if start + n <= line.len() {
        start + n
    } else {
        line.len() as int
    };
    if start < end {
        Some(line.subrange(start, end))
    } else {
        None
    }
}

/// The text of a hit at cell `x`, `len` cells wide, on a row reading `line`.
pub fn hit_text(line: &str, x: usize, len: usize) -> (r: Option<String>)
    ensures
        r matches Some(t) ==> spec_hit_text(line@, x, len) == Some(t@),
        r is None ==> spec_hit_text(line@, x, len) is None,
{
    let cs = chars_of(line);
    let n: usize = if len >= 1 {
        len
    } else {
        1
    };
    let start: usize = if x <= cs.len() {
        x
    } else {
        cs.len()
    };
    let end: usize = if n <= cs.len() - start {
        start + n
    } else {
        cs.len()
    };
    if start >= end {
        return None;
    }
    let mut t = String::new();
    let mut k = start;
    while k < end
        invariant
            start <= k <= end <= cs@.len(),
            t@ == cs@.subrange(start as int, k as int),
        decreases end - k,
    {
        push_char(&mut t, cs[k]);
        k += 1;
        assert(t@ =~= cs@.subrange(start as int, k as int));
    }
    Some(t)
}

/// What copying the current search hit puts on the clipboard: the hit's
/// text when there is some, else the query; nothing without a query.
pub open spec fn spec_copy_hit(query: Seq<char>, hit: Option<Seq<char>>) -> Option<Seq<char>> {
    if query.len() == 0 {
        None
    } else {
        match hit {
            Some(t) => if t.len() > 0 {
                Some(t)
            } else {
                Some(query)
            },
            None => Some(query),
        }
    }
}

/// The text to copy for the current hit, given the text of its row's cells
/// (`None` when the row is gone).
pub fn copy_hit_text(query: &str, hit: Option<String>) -> (r: Option<String>)
    ensures
        r matches Some(t) ==> spec_copy_hit(query@, match hit {
            Some(h) => Some(h@),
            None => None,
        }) == Some(t@),
        r is None ==> spec_copy_hit(query@, match hit {
            Some(h) => Some(h@),
            None => None,
        }) is None,
{
    if query.is_empty() {
        return None;
    }
    match hit {
        Some(t) => if !t.as_str().is_empty() {
            Some(t)
        } else {
            Some(query.to_string())
        },
        None => Some(query.to_string()),
    }
}

/// The rows (from row `first`) whose lowercased text contains the
/// lowercased query, with their text trimmed at the end; the search stops
/// once there are `limit` of them (one, when `limit` is zero); none for an
/// empty query.
pub open spec fn spec_row_hits(first: isize, lines: Seq<Seq<char>>, query: Seq<char>, limit: usize) -> Seq<
    (isize, Seq<char>),
>
    decreases lines.len(),
{
    if query.len() == 0 || lines.len() == 0 {
        Seq::empty()
    } else {
        let prev = spec_row_hits(first, lines.drop_last(), query, limit);
        let i = lines.len() - 1;
        if prev.len() >= limit && prev.len() >= 1 || !contains_text(lowercase(lines[i]), lowercase(query)) {
            prev
        } else {
            prev.push(((first + i) as isize, trim_end(lines[i])))
        }
    }
}

proof fn lemma_row_hits_full(first: isize, lines: Seq<Seq<char>>, query: Seq<char>, limit: usize, i: int)
    requires
        0 <= i <= lines.len(),
        spec_row_hits(first, lines.take(i), query, limit).len() >= limit,
        spec_row_hits(first, lines.take(i), query, limit).len() >= 1,
    ensures
        spec_row_hits(first, lines, query, limit) == spec_row_hits(first, lines.take(i), query, limit),
    decreases lines.len() - i,
{
    if i < lines.len() {
        assert(lines.take(i + 1).drop_last() =~= lines.take(i));
        lemma_row_hits_full(first, lines, query, limit, i + 1);
    } else {
        assert(lines.take(i) =~= lines);
    }
}

/// The rows matching `query` for the search picker.
pub fn row_hits(first: isize, lines: &Vec<String>, query: &str, limit: usize) -> (r: Vec<(isize, String)>)
    requires
        lines@.len() <= isize::MAX,
        lines@.len() == 0 || first + lines@.len() - 1 <= isize::MAX,
    ensures
        r@.map_values(|h: (isize, String)| (h.0, h.1@)) == spec_row_hits(first, views(lines@), query@, limit),
{
    let ghost lv = views(lines@);
    let mut hits: Vec<(isize, String)> = Vec::new();
    if query.is_empty() {
        assert(hits@.map_values(|h: (isize, String)| (h.0, h.1@)) =~= Seq::empty());
        return hits;
    }
    let q = lowercase_str(query);
    let mut i: usize = 0;
    assert(lv.take(0) =~= Seq::<Seq<char>>::empty());
    assert(hits@.map_values(|h: (isize, String)| (h.0, h.1@)) =~= Seq::empty());
    while i < lines.len()
        invariant
            lv == views(lines@),
            q@ == lowercase(query@),
            query@.len() > 0,
            lines@.len() <= isize::MAX,
            lines@.len() == 0 || first + lines@.len() - 1 <= isize::MAX,
            0 <= i <= lines@.len(),
            hits@.map_values(|h: (isize, String)| (h.0, h.1@)) == spec_row_hits(first, lv.take(i as int), query@, limit),
        decreases lines@.len() - i,
    {
        proof {
            assert(lv.take(i + 1).drop_last() =~= lv.take(i as int));
            assert(lv.take(i + 1)[i as int] == lines@[i as int]@);
        }
        if hits.len() >= limit && hits.len() >= 1 {
            proof {
                lemma_row_hits_full(first, lv, query@, limit, i as int);
                assert(lv.take(lines@.len() as int) =~= lv);
            }
            return hits;
        }
        let text = lines[i].as_str();
        let l = lowercase_str(text);
        proof {
            reveal(contains_text);
        }
        if find_bytes(l.as_str().as_bytes(), q.as_str().as_bytes()).is_some() {
            let t = trimmed_end(text);
            let y = first + i as isize;
            let ghost before = hits@;
            let ghost tv = t@;
            hits.push((y, t));
            assert(hits@.map_values(|h: (isize, String)| (h.0, h.1@)) =~= before.map_values(
                |h: (isize, String)| (h.0, h.1@),
            ).push((y, tv)));
        }
        i += 1;
    }
    assert(lv.take(lines@.len() as int) =~= lv);
    hits
}

} // verus!
