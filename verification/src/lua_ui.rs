//! Tab chrome rules driven by the lua configuration: tab titles, whether the
//! tab bar shows, and which tab takes the focus when one closes.

use vstd::prelude::*;

use crate::text::{chars_of, decimal, push_char, push_decimal, push_str};

verus! {

/// Tab label before clipping: an optional `"N: "` prefix, then the title.
pub open spec fn tab_label(index: usize, title: Seq<char>, show_index: bool, zero_based: bool) -> Seq<
    char,
> {
    if show_index {
        let n = if zero_based {
            index as nat
        } else {
            (index + 1) as nat
        };
        decimal(n) + ": "@ + title
    } else {
        title
    }
}

/// Terminal cells that the characters `s` occupy, as termwiz counts them
/// with the latest Unicode version.
pub uninterp spec fn column_width(s: Seq<char>) -> usize;

/// Cells that `s` occupies on a terminal
/// (`termwiz::cell::unicode_column_width` with no Unicode version, which
/// means the latest). The contract names the result as a function of the
/// characters of `s` alone, and states one value of it: the ellipsis alone
/// takes one cell. Other widths come from termwiz's Unicode tables and are
/// not stated.
#[verifier::external_body]
fn text_width(s: &str) -> (r: usize)
    ensures
        r == column_width(s@),
        s@ == seq!['…'] ==> r == 1,
{
    termwiz::cell::unicode_column_width(s, None)
}

/// The width limit of a tab label: `max_width`, but at least one cell.
pub open spec fn cell_limit(max_width: usize) -> int {
    if max_width < 1 {
        1
    } else {
        max_width as int
    }
}

/// The first `k` characters of `s` followed by an ellipsis.
pub open spec fn clipped(s: Seq<char>, k: int) -> Seq<char> {
    s.take(k).push('…')
}

/// The longest clipped form `clipped(s, j)` with `1 <= j <= k` that fits in
/// `max` cells, or the ellipsis alone when none does.
pub open spec fn longest_fit(s: Seq<char>, k: int, max: int) -> Seq<char>
    decreases k,
{
    if k <= 0 {
        seq!['…']
    } else if column_width(clipped(s, k)) <= max {
        clipped(s, k)
    } else {
        longest_fit(s, k - 1, max)
    }
}

/// The label clipped to `max_width` terminal cells (at least one): a label
/// that is too wide keeps its longest prefix that still fits together with
/// a trailing ellipsis; with a single cell it becomes the ellipsis alone.
pub open spec fn clip_label(s: Seq<char>, max_width: usize) -> Seq<char> {
    let max = cell_limit(max_width);
    if column_width(s) <= max {
        s
    } else if max == 1 {
        seq!['…']
    } else {
        longest_fit(s, s.len() - 1, max)
    }
}

/// Appends the first `k` characters of `chars` and an ellipsis to a new string.
fn clipped_string(chars: &Vec<char>, k: usize) -> (r: String)
    requires
        k <= chars@.len(),
    ensures
        r@ == clipped(chars@, k as int),
{
    let mut out = String::new();
    let mut i: usize = 0;
    while i < k
        invariant
            k <= chars@.len(),
            0 <= i <= k,
            out@ == chars@.take(i as int),
        decreases k - i,
    {
        push_char(&mut out, chars[i]);
        i += 1;
        assert(out@ =~= chars@.take(i as int));
    }
    push_char(&mut out, '…');
    out
}

/// Tab label: optional `"N: "` prefix (one-based unless `zero_based`), then
/// the title, clipped to `max_width` terminal cells (at least one).
pub fn format_tab_title(
    index: usize,
    title: &str,
    show_index: bool,
    zero_based: bool,
    max_width: usize,
) -> (r: String)
    requires
        show_index && !zero_based ==> index < usize::MAX,
    ensures
        r@ == clip_label(tab_label(index, title@, show_index, zero_based), max_width),
        column_width(r@) <= cell_limit(max_width),
{
    let mut s = String::new();
    if show_index {
        let n = if zero_based {
            index
        } else {
            index + 1
        };
        push_decimal(&mut s, n);
        push_str(&mut s, ": ");
        proof {
            reveal_strlit(": ");
        }
    }
    push_str(&mut s, title);
    assert(s@ =~= tab_label(index, title@, show_index, zero_based));
    let ghost label = s@;
    let max: usize = if max_width < 1 {
        1
    } else {
        max_width
    };
    if text_width(s.as_str()) <= max {
        return s;
    }
    let chars = chars_of(s.as_str());
    let mut k: usize = if max == 1 || chars.len() == 0 {
        0
    } else {
        chars.len() - 1
    };
    loop
        invariant
            chars@ == label,
            label == tab_label(index, title@, show_index, zero_based),
            1 <= max,
            max as int == cell_limit(max_width),
            k == 0 || k < chars@.len(),
            clip_label(label, max_width) == longest_fit(label, k as int, max as int),
        decreases k,
    {
        let candidate = clipped_string(&chars, k);
        let w = text_width(candidate.as_str());
        if k == 0 {
            assert(candidate@ =~= seq!['…']);
        }
        if w <= max || k == 0 {
            return candidate;
        }
        k -= 1;
    }
}

pub open spec fn spec_show_tab_bar(tab_count: usize, enable_tab_bar: bool, hide_if_only_one: bool) -> bool {
    enable_tab_bar && !(hide_if_only_one && tab_count <= 1)
}

/// The tab bar shows when enabled, unless it hides for a single tab and
/// there is at most one.
pub fn show_tab_bar(tab_count: usize, enable_tab_bar: bool, hide_if_only_one: bool) -> (r: bool)
    ensures
        r == spec_show_tab_bar(tab_count, enable_tab_bar, hide_if_only_one),
{
    enable_tab_bar && !(hide_if_only_one && tab_count <= 1)
}

/// Index `i` once tab `closed` is gone.
pub open spec fn shift_after_close(i: usize, closed: usize) -> int {
    if i > closed {
        i - 1
    } else {
        i as int
    }
}

/// The tab that takes the focus after tab `closed` of `tab_count_before`
/// closes: with `switch_to_last`, closing the focused tab returns to the
/// previously focused one when it is another existing tab; otherwise the
/// focus keeps its tab, or the new last tab when it was past the end.
pub open spec fn spec_active_after_close(
    active: usize,
    last_active: Option<usize>,
    closed: usize,
    tab_count_before: usize,
    switch_to_last: bool,
) -> int {
    let remaining: int = if tab_count_before == 0 {
        0
    } else {
        tab_count_before - 1
    };
    if remaining == 0 {
        0
    } else if closed == active && switch_to_last && last_active is Some && last_active.unwrap()
        != closed && last_active.unwrap() < tab_count_before {
        let p = shift_after_close(last_active.unwrap(), closed);
        if p < remaining - 1 {
            p
        } else {
            remaining - 1
        }
    } else if active >= remaining {
        remaining - 1
    } else if active > closed {
        active - 1
    } else {
        active as int
    }
}

/// Focused index after removing tab `closed` from `tab_count_before` tabs.
pub fn active_after_close(
    active: usize,
    last_active: Option<usize>,
    closed: usize,
    tab_count_before: usize,
    switch_to_last: bool,
) -> (r: usize)
    ensures
        r == spec_active_after_close(active, last_active, closed, tab_count_before, switch_to_last),
        tab_count_before > 1 ==> r < tab_count_before - 1,
{
    let remaining = if tab_count_before == 0 {
        0
    } else {
        tab_count_before - 1
    };
    if remaining == 0 {
        return 0;
    }
    if closed == active && switch_to_last {
        if let Some(prev) = last_active {
            if prev != closed && prev < tab_count_before {
                let p = if prev > closed {
                    prev - 1
                } else {
                    prev
                };
                return if p < remaining - 1 {
                    p
                } else {
                    remaining - 1
                };
            }
        }
    }
    if active >= remaining {
        remaining - 1
    } else if active > closed {
        active - 1
    } else {
        active
    }
}

/// With more than one tab before the close, the new active index is one of
/// the tabs that remain.
pub proof fn lemma_active_after_close_in_range(
    active: usize,
    last_active: Option<usize>,
    closed: usize,
    tab_count_before: usize,
    switch_to_last: bool,
)
    requires
        tab_count_before > 1,
    ensures
        0 <= spec_active_after_close(active, last_active, closed, tab_count_before, switch_to_last)
            < tab_count_before - 1,
{
}

/// Closing the only tab, or one of none, leaves the focus index at 0.
pub proof fn lemma_focus_after_closing_last_tab(
    active: usize,
    last_active: Option<usize>,
    closed: usize,
    tab_count_before: usize,
    switch_to_last: bool,
)
    requires
        tab_count_before <= 1,
    ensures
        spec_active_after_close(active, last_active, closed, tab_count_before, switch_to_last) == 0,
{
}

/// Which tab has the focus after tab `closed` of `tabs` closes (the
/// remaining tabs are `tabs` without it): closing another tab keeps the
/// focus on the tab that had it; closing the focused tab goes back to the
/// previously focused tab when `switch_to_last` asks for it and that tab
/// still exists, and otherwise to the tab that slides into the closed one's
/// place, or the new last tab when the closed one was last. A focus index
/// past the end goes to the new last tab.
pub proof fn lemma_focus_after_close<T>(
    tabs: Seq<T>,
    active: usize,
    last_active: Option<usize>,
    closed: usize,
    switch_to_last: bool,
)
    requires
        2 <= tabs.len() <= usize::MAX,
        closed < tabs.len(),
    ensures
        ({
            let r = spec_active_after_close(active, last_active, closed, tabs.len() as usize, switch_to_last);
            let rest = tabs.remove(closed as int);
            let back = closed == active && switch_to_last && last_active is Some && last_active.unwrap()
                != closed && last_active.unwrap() < tabs.len();
            &&& 0 <= r < rest.len()
            &&& closed != active && active < tabs.len() ==> rest[r] == tabs[active as int]
            &&& active >= tabs.len() ==> r == tabs.len() - 2
            &&& back ==> rest[r] == tabs[last_active.unwrap() as int]
            &&& closed == active && !back ==> r == if closed + 1 < tabs.len() {
                closed as int
            } else {
                closed - 1
            }
        }),
{
    let r = spec_active_after_close(active, last_active, closed, tabs.len() as usize, switch_to_last);
    let rest = tabs.remove(closed as int);
    if closed != active && active < tabs.len() {
        if active > closed {
            assert(rest[active - 1] == tabs[active as int]);
        } else {
            assert(rest[active as int] == tabs[active as int]);
        }
    }
    if closed == active && switch_to_last && last_active is Some {
        let p = last_active.unwrap();
        if p != closed && p < tabs.len() {
            if p > closed {
                assert(rest[p - 1] == tabs[p as int]);
            } else {
                assert(rest[p as int] == tabs[p as int]);
            }
        }
    }
}

} // verus!
