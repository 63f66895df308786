//! Quick-select: the spans of a screen that look like URLs, paths,
//! hashes and numbers, each given a short label to pick it by.

use vstd::prelude::*;

use crate::find::{chars_before, compute_labels_for_alphabet, labels_for_alphabet, views};
use crate::text::{chars_of, str_eq};
use vstd::string::StringSliceAdditionalSpecFns;

verus! {

/// Whether `Regex::new` accepts a pattern: it is valid syntax and its
/// compiled form fits the default size limit.
pub uninterp spec fn pattern_compiles(pattern: Seq<char>) -> bool;

/// What `Regex::captures_iter` yields for a pattern on a haystack, each
/// capture as the byte spans of group 0 and group 1.
pub uninterp spec fn captures_of(pattern: Seq<char>, hay: Seq<char>) -> Seq<
    (Option<(usize, usize)>, Option<(usize, usize)>),
>;

/// A byte span `(start, end)` of `hay` that starts and ends on character
/// boundaries.
pub open spec fn span_in(hay: Seq<char>, span: (usize, usize)) -> bool {
    let hb = vstd::utf8::encode_utf8(hay);
    &&& span.0 <= span.1 <= hb.len()
    &&& vstd::utf8::is_char_boundary(hb, span.0 as int)
    &&& vstd::utf8::is_char_boundary(hb, span.1 as int)
}

/// Compiles `pattern` with `regex::Regex::new` and, where it compiles, runs
/// `Regex::captures_iter` on each of `lines`, giving each capture's group 0
/// and group 1 as byte spans (`Captures::get`, `Match::start`,
/// `Match::end`). The contract claims: a result exactly when the pattern
/// compiles, one entry per line, which is `captures_of` the pattern and
/// that line, and every span lies on character boundaries of its line.
#[verifier::external_body]
fn captures_in_lines(pattern: &str, lines: &[String]) -> (r: Option<
    Vec<Vec<(Option<(usize, usize)>, Option<(usize, usize)>)>>,
>)
    ensures
        r is Some == pattern_compiles(pattern@),
        r matches Some(v) ==> v@.len() == lines@.len(),
        r matches Some(v) ==> forall|i: int|
            0 <= i < lines@.len() ==> (#[trigger] v@[i])@ == captures_of(pattern@, lines@[i]@),
        r matches Some(v) ==> forall|i: int, t: int|
            0 <= i < lines@.len() && 0 <= t < v@[i]@.len() ==> ((#[trigger] v@[i]@[t]).0 matches Some(sp)
                ==> span_in(lines@[i]@, sp)),
        r matches Some(v) ==> forall|i: int, t: int|
            0 <= i < lines@.len() && 0 <= t < v@[i]@.len() ==> ((#[trigger] v@[i]@[t]).1 matches Some(sp)
                ==> span_in(lines@[i]@, sp)),
{
    let re = regex::Regex::new(pattern).ok()?;
    Some(lines.iter().map(|h| re.captures_iter(h).map(
        |c| (c.get(0).map(|m| (m.start(), m.end())), c.get(1).map(|m| (m.start(), m.end()))),
    ).collect()).collect())
}

/// The patterns that quick-select looks for, most specific first.
pub open spec fn quick_select_patterns() -> Seq<Seq<char>> {
    seq![
        r"\[[^]]*\]\(([^)]+)\)"@,
        r"(?:https?://|git@|git://|ssh://|ftp://|file://)\S+"@,
        r"--- a/(\S+)"@,
        r"\+\+\+ b/(\S+)"@,
        r"sha256:([0-9a-f]{64})"@,
        r"(?:[.\w\-@~]+)?(?:/+[.\w\-@]+)+"@,
        r"#[0-9a-fA-F]{6}"@,
        r"[0-9a-f]{8}-[0-9a-f]{4}-[0-9a-f]{4}-[0-9a-f]{4}-[0-9a-f]{12}"@,
        r"Qm[0-9a-zA-Z]{44}"@,
        r"[0-9a-f]{7,40}"@,
        r"\d{1,3}\.\d{1,3}\.\d{1,3}\.\d{1,3}"@,
        r"[A-f0-9:]+:+[A-f0-9:]+[%\w\d]+"@,
        r"0x[0-9a-fA-F]+"@,
        r"[0-9]{4,}"@,
    ]
}

fn pattern_sources() -> (r: Vec<&'static str>)
    ensures
        r@.map_values(|s: &str| s@) == quick_select_patterns(),
{
    let mut v: Vec<&'static str> = Vec::new();
    v.push(r"\[[^]]*\]\(([^)]+)\)");
    v.push(r"(?:https?://|git@|git://|ssh://|ftp://|file://)\S+");
    v.push(r"--- a/(\S+)");
    v.push(r"\+\+\+ b/(\S+)");
    v.push(r"sha256:([0-9a-f]{64})");
    v.push(r"(?:[.\w\-@~]+)?(?:/+[.\w\-@]+)+");
    v.push(r"#[0-9a-fA-F]{6}");
    v.push(r"[0-9a-f]{8}-[0-9a-f]{4}-[0-9a-f]{4}-[0-9a-f]{4}-[0-9a-f]{12}");
    v.push(r"Qm[0-9a-zA-Z]{44}");
    v.push(r"[0-9a-f]{7,40}");
    v.push(r"\d{1,3}\.\d{1,3}\.\d{1,3}\.\d{1,3}");
    v.push(r"[A-f0-9:]+:+[A-f0-9:]+[%\w\d]+");
    v.push(r"0x[0-9a-fA-F]+");
    v.push(r"[0-9]{4,}");
    assert(v@.map_values(|s: &str| s@) =~= quick_select_patterns());
    v
}

/// The patterns of `pats` that compile, in order.
pub open spec fn compiling(pats: Seq<Seq<char>>) -> Seq<Seq<char>>
    decreases pats.len(),
{
    if pats.len() == 0 {
        Seq::empty()
    } else if pattern_compiles(pats.last()) {
        compiling(pats.drop_last()).push(pats.last())
    } else {
        compiling(pats.drop_last())
    }
}

/// The captures of each pattern of `pats` on each of `lines`, with their
/// spans on character boundaries of their line.
pub open spec fn capture_table(
    table: Seq<Vec<Vec<(Option<(usize, usize)>, Option<(usize, usize)>)>>>,
    pats: Seq<Seq<char>>,
    lines: Seq<Seq<char>>,
) -> bool {
    &&& table.len() == pats.len()
    &&& forall|p: int| 0 <= p < table.len() ==> (#[trigger] table[p])@.len() == lines.len()
    &&& forall|p: int, i: int|
        0 <= p < table.len() && 0 <= i < lines.len() ==> (#[trigger] table[p]@[i])@ == captures_of(pats[p], lines[i])
    &&& forall|p: int, i: int, t: int|
        0 <= p < table.len() && 0 <= i < lines.len() && 0 <= t < table[p]@[i]@.len() ==> {
            &&& ((#[trigger] table[p]@[i]@[t]).0 matches Some(sp) ==> span_in(lines[i], sp))
            &&& (table[p]@[i]@[t].1 matches Some(sp) ==> span_in(lines[i], sp))
        }
}

/// The captures of every quick-select pattern that compiles on every line.
fn quick_select_captures(lines: &[String]) -> (r: Vec<Vec<Vec<(Option<(usize, usize)>, Option<(usize, usize)>)>>>)
    ensures
        capture_table(r@, compiling(quick_select_patterns()), views(lines@)),
{
    let srcs = pattern_sources();
    let ghost ps = quick_select_patterns();
    let ghost ls = views(lines@);
    let mut out: Vec<Vec<Vec<(Option<(usize, usize)>, Option<(usize, usize)>)>>> = Vec::new();
    let mut i: usize = 0;
    while i < srcs.len()
        invariant
            srcs@.map_values(|s: &str| s@) == ps,
            ps == quick_select_patterns(),
            ls == views(lines@),
            0 <= i <= srcs@.len(),
            capture_table(out@, compiling(ps.take(i as int)), ls),
        decreases srcs@.len() - i,
    {
        assert(ps.take(i + 1).drop_last() =~= ps.take(i as int));
        assert(ps[i as int] == srcs@[i as int]@);
        let ghost before = out@;
        match captures_in_lines(srcs[i], lines) {
            Some(v) => {
                out.push(v);
                proof {
                    let cp = compiling(ps.take(i + 1));
                    assert(cp == compiling(ps.take(i as int)).push(ps[i as int]));
                    assert forall|p: int, j: int| 0 <= p < out@.len() && 0 <= j < ls.len() implies (
                    #[trigger] out@[p]@[j])@ == captures_of(cp[p], ls[j]) by {
                        if p < before.len() {
                            assert(out@[p] == before[p]);
                        } else {
                            assert(ls[j] == lines@[j]@);
                        }
                    }
                    assert forall|p: int, j: int, t: int|
                        0 <= p < out@.len() && 0 <= j < ls.len() && 0 <= t < out@[p]@[j]@.len() implies {
                        &&& ((#[trigger] out@[p]@[j]@[t]).0 matches Some(sp) ==> span_in(ls[j], sp))
                        &&& (out@[p]@[j]@[t].1 matches Some(sp) ==> span_in(ls[j], sp))
                    } by {
                        if p < before.len() {
                            assert(out@[p] == before[p]);
                        } else {
                            assert(ls[j] == lines@[j]@);
                        }
                    }
                    assert forall|p: int| 0 <= p < out@.len() implies (#[trigger] out@[p])@.len() == ls.len() by {
                        if p < before.len() {
                            assert(out@[p] == before[p]);
                        }
                    }
                }
            },
            None => {},
        }
        i += 1;
    }
    assert(ps.take(srcs@.len() as int) =~= ps);
    out
}

/// A span found on a row: the row, its first cell and its text.
#[derive(Debug, PartialEq, Eq)]
pub struct QsSpan {
    pub y: isize,
    pub x: usize,
    pub text: String,
}

/// The spans as (row, cell, text) triples.
pub open spec fn span_views(v: Seq<QsSpan>) -> Seq<(isize, usize, Seq<char>)> {
    v.map_values(|s: QsSpan| (s.y, s.x, s.text@))
}

/// The span a capture stands for: group 1 when the pattern has one that
/// took part, else the whole match.
pub open spec fn chosen_group(cap: (Option<(usize, usize)>, Option<(usize, usize)>)) -> Option<(usize, usize)> {
    if cap.1 is Some {
        cap.1
    } else {
        cap.0
    }
}

/// The text between two byte offsets of `hay`.
pub open spec fn span_text(hay: Seq<char>, sp: (usize, usize)) -> Seq<char> {
    vstd::utf8::decode_utf8(vstd::utf8::encode_utf8(hay).subrange(sp.0 as int, sp.1 as int))
}

/// `spans` with `c` added last, unless it is already there.
pub open spec fn add_span(spans: Seq<(isize, usize, Seq<char>)>, c: (isize, usize, Seq<char>)) -> Seq<
    (isize, usize, Seq<char>),
> {
    if spans.contains(c) {
        spans
    } else {
        spans.push(c)
    }
}

/// A capture on row `y` of `hay` adds its span when it is at least four
/// bytes long and not already found.
pub open spec fn after_capture(
    spans: Seq<(isize, usize, Seq<char>)>,
    y: isize,
    hay: Seq<char>,
    cap: (Option<(usize, usize)>, Option<(usize, usize)>),
) -> Seq<(isize, usize, Seq<char>)> {
    match chosen_group(cap) {
        None => spans,
        Some(sp) => if sp.1 - sp.0 < 4 {
            spans
        } else {
            add_span(spans, (y, chars_before(hay, sp.0 as int) as usize, span_text(hay, sp)))
        },
    }
}

pub open spec fn after_captures(
    spans: Seq<(isize, usize, Seq<char>)>,
    y: isize,
    hay: Seq<char>,
    caps: Seq<(Option<(usize, usize)>, Option<(usize, usize)>)>,
) -> Seq<(isize, usize, Seq<char>)>
    decreases caps.len(),
{
    if caps.len() == 0 {
        spans
    } else {
        after_capture(after_captures(spans, y, hay, caps.drop_last()), y, hay, caps.last())
    }
}

/// The captures of each pattern in turn on row `y`.
pub open spec fn after_patterns(
    spans: Seq<(isize, usize, Seq<char>)>,
    y: isize,
    hay: Seq<char>,
    pats: Seq<Seq<char>>,
) -> Seq<(isize, usize, Seq<char>)>
    decreases pats.len(),
{
    if pats.len() == 0 {
        spans
    } else {
        after_captures(after_patterns(spans, y, hay, pats.drop_last()), y, hay, captures_of(pats.last(), hay))
    }
}

/// The distinct spans of all rows, row by row, pattern by pattern, in the
/// order the captures come.
pub open spec fn collect_spans(lines: Seq<Seq<char>>, pats: Seq<Seq<char>>, first: isize) -> Seq<
    (isize, usize, Seq<char>),
>
    decreases lines.len(),
{
    if lines.len() == 0 {
        Seq::empty()
    } else {
        after_patterns(
            collect_spans(lines.drop_last(), pats, first),
            (first + lines.len() - 1) as isize,
            lines.last(),
            pats,
        )
    }
}

proof fn lemma_boundary_after_skip(hb: Seq<u8>, s: int, e: int)
    requires
        vstd::utf8::valid_utf8(hb),
        0 <= s <= e <= hb.len(),
        vstd::utf8::is_char_boundary(hb, s),
        vstd::utf8::is_char_boundary(hb, e),
    ensures
        vstd::utf8::valid_utf8(hb.subrange(s, hb.len() as int)),
        vstd::utf8::is_char_boundary(hb.subrange(s, hb.len() as int), e - s),
{
    let rest = hb.subrange(s, hb.len() as int);
    vstd::utf8::valid_utf8_split(hb, s);
    if e - s < rest.len() {
        if e > s {
            vstd::utf8::is_char_boundary_iff_not_is_continuation_byte(hb, e);
            vstd::utf8::is_char_boundary_iff_not_is_continuation_byte(rest, e - s);
            assert(rest[e - s] == hb[e]);
        } else {
            vstd::utf8::is_char_boundary_start_end_of_seq(rest);
        }
    } else {
        vstd::utf8::is_char_boundary_start_end_of_seq(rest);
        assert(e - s == rest.len());
    }
}

/// Whether `(y, x, text)` is among `spans`.
fn contains_span(spans: &Vec<QsSpan>, y: isize, x: usize, text: &str) -> (r: bool)
    ensures
        r == span_views(spans@).contains((y, x, text@)),
{
    let mut i: usize = 0;
    while i < spans.len()
        invariant
            0 <= i <= spans@.len(),
            forall|j: int| 0 <= j < i ==> span_views(spans@)[j] != (y, x, text@),
        decreases spans@.len() - i,
    {
        let sp = &spans[i];
        if sp.y == y && sp.x == x && str_eq(sp.text.as_str(), text) {
            assert(span_views(spans@)[i as int] == (y, x, text@));
            return true;
        }
        i += 1;
    }
    false
}

/// Adds the span of one capture on row `y` of `hay`, as `after_capture`.
fn take_capture(
    spans: &mut Vec<QsSpan>,
    y: isize,
    hay: &str,
    cap: (Option<(usize, usize)>, Option<(usize, usize)>),
)
    requires
        cap.0 matches Some(s) ==> span_in(hay@, s),
        cap.1 matches Some(s) ==> span_in(hay@, s),
    ensures
        span_views(final(spans)@) == after_capture(span_views(old(spans)@), y, hay@, cap),
{
    let group = if cap.1.is_some() {
        cap.1
    } else {
        cap.0
    };
    let (s, e) = match group {
        Some(sp) => sp,
        None => {
            return;
        },
    };
    if e - s < 4 {
        return;
    }
    let (pre, rest) = hay.split_at(s);
    proof {
        vstd::utf8::encode_utf8_valid_utf8(hay@);
        lemma_boundary_after_skip(hay.spec_bytes(), s as int, e as int);
        assert(rest.spec_bytes() =~= hay.spec_bytes().subrange(s as int, hay.spec_bytes().len() as int));
        assert(pre.spec_bytes() =~= hay.spec_bytes().take(s as int));
        vstd::utf8::encode_utf8_decode_utf8(pre@);
    }
    let (mid, _) = rest.split_at(e - s);
    proof {
        assert(mid.spec_bytes() =~= hay.spec_bytes().subrange(s as int, e as int));
        vstd::utf8::encode_utf8_decode_utf8(mid@);
    }
    let x = chars_of(pre).len();
    if contains_span(spans, y, x, mid) {
        return;
    }
    let text = mid.to_string();
    let ghost before = spans@;
    spans.push(QsSpan { y, x, text });
    assert(span_views(spans@) =~= span_views(before).push((y, x, mid@)));
}

/// The spans of all `lines` (row `first` onward) for the captures `table`
/// of the compiling quick-select patterns, as `collect_spans`.
fn gather_spans(
    first: isize,
    lines: &[String],
    table: &Vec<Vec<Vec<(Option<(usize, usize)>, Option<(usize, usize)>)>>>,
) -> (r: Vec<QsSpan>)
    requires
        lines@.len() <= isize::MAX,
        lines@.len() == 0 || first + lines@.len() - 1 <= isize::MAX,
        capture_table(table@, compiling(quick_select_patterns()), views(lines@)),
    ensures
        span_views(r@) == collect_spans(views(lines@), compiling(quick_select_patterns()), first),
{
    let ghost ls = views(lines@);
    let ghost ps = compiling(quick_select_patterns());
    let mut spans: Vec<QsSpan> = Vec::new();
    let mut i: usize = 0;
    assert(ls.take(0) =~= Seq::<Seq<char>>::empty());
    while i < lines.len()
        invariant
            ls == views(lines@),
            ps == compiling(quick_select_patterns()),
            capture_table(table@, ps, ls),
            lines@.len() <= isize::MAX,
            lines@.len() == 0 || first + lines@.len() - 1 <= isize::MAX,
            0 <= i <= lines@.len(),
            span_views(spans@) == collect_spans(ls.take(i as int), ps, first),
        decreases lines@.len() - i,
    {
        let y = first + i as isize;
        let hay = lines[i].as_str();
        let ghost line_start = span_views(spans@);
        proof {
            assert(hay@ == ls[i as int]);
            assert(ls.take(i + 1).drop_last() =~= ls.take(i as int));
            assert(ls.take(i + 1).last() == hay@);
        }
        let mut j: usize = 0;
        while j < table.len()
            invariant
                capture_table(table@, ps, ls),
                0 <= i < ls.len(),
                hay@ == ls[i as int],
                0 <= j <= table@.len(),
                span_views(spans@) == after_patterns(line_start, y, hay@, ps.take(j as int)),
            decreases table@.len() - j,
        {
            let caps = &table[j][i];
            let ghost pat_start = span_views(spans@);
            proof {
                assert(ps.take(j + 1).drop_last() =~= ps.take(j as int));
                assert(ps.take(j + 1).last() == ps[j as int]);
                assert(caps@ == captures_of(ps[j as int], hay@));
                assert forall|t: int| 0 <= t < caps@.len() implies {
                    &&& ((#[trigger] caps@[t]).0 matches Some(sp) ==> span_in(hay@, sp))
                    &&& (caps@[t].1 matches Some(sp) ==> span_in(hay@, sp))
                } by {
                    assert(table@[j as int]@[i as int]@[t] == caps@[t]);
                }
            }
            let mut k: usize = 0;
            while k < caps.len()
                invariant
                    forall|t: int| 0 <= t < caps@.len() ==> ((#[trigger] caps@[t]).0 matches Some(sp) ==> span_in(hay@, sp)),
                    forall|t: int| 0 <= t < caps@.len() ==> ((#[trigger] caps@[t]).1 matches Some(sp) ==> span_in(hay@, sp)),
                    0 <= k <= caps@.len(),
                    span_views(spans@) == after_captures(pat_start, y, hay@, caps@.take(k as int)),
                decreases caps@.len() - k,
            {
                proof {
                    assert(caps@.take(k + 1).drop_last() =~= caps@.take(k as int));
                    assert(caps@.take(k + 1).last() == caps@[k as int]);
                }
                take_capture(&mut spans, y, hay, caps[k]);
                k += 1;
            }
            proof {
                assert(caps@.take(caps@.len() as int) =~= caps@);
            }
            j += 1;
        }
        proof {
            assert(ps.take(table@.len() as int) =~= ps);
        }
        i += 1;
    }
    assert(ls.take(lines@.len() as int) =~= ls);
    spans
}

/// Whether `a` sorts no later than `b`: by row, then by cell.
pub open spec fn row_col_le(a: (isize, usize, Seq<char>), b: (isize, usize, Seq<char>)) -> bool {
    a.0 < b.0 || (a.0 == b.0 && a.1 <= b.1)
}

/// `e` put into `sorted` after every item that sorts no later than it.
pub open spec fn insert_by_row_col(sorted: Seq<(isize, usize, Seq<char>)>, e: (isize, usize, Seq<char>)) -> Seq<
    (isize, usize, Seq<char>),
>
    decreases sorted.len(),
{
    if sorted.len() == 0 || row_col_le(sorted.last(), e) {
        sorted.push(e)
    } else {
        insert_by_row_col(sorted.drop_last(), e).push(sorted.last())
    }
}

/// `s` sorted by row and cell, keeping the order of equal keys.
pub open spec fn sort_by_row_col(s: Seq<(isize, usize, Seq<char>)>) -> Seq<(isize, usize, Seq<char>)>
    decreases s.len(),
{
    if s.len() == 0 {
        s
    } else {
        insert_by_row_col(sort_by_row_col(s.drop_last()), s.last())
    }
}

proof fn lemma_insert_tail(sorted: Seq<(isize, usize, Seq<char>)>, e: (isize, usize, Seq<char>), j: int)
    requires
        0 <= j <= sorted.len(),
        forall|t: int| j <= t < sorted.len() ==> !row_col_le(#[trigger] sorted[t], e),
    ensures
        insert_by_row_col(sorted, e) == insert_by_row_col(sorted.take(j), e) + sorted.skip(j),
    decreases sorted.len() - j,
{
    if j == sorted.len() {
        assert(sorted.take(j) =~= sorted);
        assert(insert_by_row_col(sorted.take(j), e) + sorted.skip(j) =~= insert_by_row_col(sorted.take(j), e));
    } else {
        assert(!row_col_le(sorted[sorted.len() - 1], e));
        let d = sorted.drop_last();
        lemma_insert_tail(d, e, j);
        assert(d.take(j) =~= sorted.take(j));
        assert(d.skip(j).push(sorted.last()) =~= sorted.skip(j));
        assert((insert_by_row_col(d.take(j), e) + d.skip(j)).push(sorted.last()) =~= insert_by_row_col(
            d.take(j),
            e,
        ) + d.skip(j).push(sorted.last()));
    }
}

proof fn lemma_sort_len(s: Seq<(isize, usize, Seq<char>)>)
    ensures
        sort_by_row_col(s).len() == s.len(),
    decreases s.len(),
{
    if s.len() > 0 {
        lemma_sort_len(s.drop_last());
        lemma_insert_len(sort_by_row_col(s.drop_last()), s.last());
    }
}

proof fn lemma_insert_len(sorted: Seq<(isize, usize, Seq<char>)>, e: (isize, usize, Seq<char>))
    ensures
        insert_by_row_col(sorted, e).len() == sorted.len() + 1,
    decreases sorted.len(),
{
    if sorted.len() > 0 && !row_col_le(sorted.last(), e) {
        lemma_insert_len(sorted.drop_last(), e);
    }
}

/// Sorts `spans` in place by row and cell, keeping the order of equal keys.
fn sort_spans(spans: &mut Vec<QsSpan>)
    ensures
        span_views(final(spans)@) == sort_by_row_col(span_views(old(spans)@)),
{
    let ghost orig = span_views(spans@);
    let n = spans.len();
    let mut i: usize = 0;
    assert(orig.take(0) =~= Seq::<(isize, usize, Seq<char>)>::empty());
    assert(span_views(spans@) =~= sort_by_row_col(orig.take(0)) + orig.skip(0));
    while i < n
        invariant
            n == spans@.len(),
            orig.len() == n,
            0 <= i <= n,
            span_views(spans@) == sort_by_row_col(orig.take(i as int)) + orig.skip(i as int),
        decreases n - i,
    {
        let ghost sorted = sort_by_row_col(orig.take(i as int));
        let ghost e = orig[i as int];
        proof {
            lemma_sort_len(orig.take(i as int));
            assert(orig.take(i + 1).drop_last() =~= orig.take(i as int));
            assert(orig.take(i + 1).last() == e);
        }
        let mut j: usize = i;
        while j > 0 && !(spans[j - 1].y < spans[j].y || (spans[j - 1].y == spans[j].y && spans[j - 1].x <= spans[j].x))
            invariant
                n == spans@.len(),
                orig.len() == n,
                0 <= j <= i < n,
                sorted.len() == i,
                e == orig[i as int],
                span_views(spans@) == sorted.take(j as int) + seq![e] + sorted.skip(j as int) + orig.skip(i + 1),
                forall|t: int| j <= t < i ==> !row_col_le(#[trigger] sorted[t], e),
            decreases j,
        {
            let ghost v0 = span_views(spans@);
            let ghost raw = spans@;
            proof {
                assert(v0[j - 1] == sorted[j - 1]);
                assert(v0[j as int] == e);
            }
            let item = spans.remove(j);
            spans.insert(j - 1, item);
            proof {
                let target = sorted.take(j - 1) + seq![e] + sorted.skip(j - 1) + orig.skip(i + 1);
                assert(spans@.len() == raw.len());
                assert forall|t: int| 0 <= t < n implies #[trigger] span_views(spans@)[t] == target[t] by {
                    if t < j - 1 {
                        assert(spans@[t] == raw[t]);
                        assert(v0[t] == target[t]);
                    } else if t == j - 1 {
                        assert(spans@[t] == raw[j as int]);
                    } else if t == j {
                        assert(spans@[t] == raw[j - 1]);
                    } else {
                        assert(spans@[t] == raw[t]);
                        assert(v0[t] == target[t]);
                    }
                }
                assert(span_views(spans@) =~= target);
            }
            j -= 1;
        }
        proof {
            let v = span_views(spans@);
            if j > 0 {
                assert(v[j - 1] == sorted[j - 1]);
                assert(v[j as int] == e);
                assert(row_col_le(sorted.take(j as int).last(), e));
            }
            lemma_insert_tail(sorted, e, j as int);
            assert(sorted.take(j as int).push(e) == insert_by_row_col(sorted.take(j as int), e));
            assert(orig.skip(i as int).drop_first() =~= orig.skip(i + 1));
            assert(v =~= sort_by_row_col(orig.take(i + 1)) + orig.skip(i + 1));
        }
        i += 1;
    }
    assert(orig.take(n as int) =~= orig);
    assert(span_views(spans@) =~= sort_by_row_col(orig.take(n as int)) + orig.skip(n as int));
}

/// A quick-select match: its label, row, first cell and text.
#[derive(Debug, PartialEq, Eq)]
pub struct HintMatch {
    pub label: String,
    pub y: isize,
    pub x: usize,
    pub text: String,
}

pub open spec fn hint_views(v: Seq<HintMatch>) -> Seq<(Seq<char>, isize, usize, Seq<char>)> {
    v.map_values(|h: HintMatch| (h.label@, h.y, h.x, h.text@))
}

/// The sorted spans paired with labels, as far as both go.
pub open spec fn label_spans(spans: Seq<(isize, usize, Seq<char>)>, labels: Seq<Seq<char>>) -> Seq<
    (Seq<char>, isize, usize, Seq<char>),
> {
    let n = if spans.len() < labels.len() {
        spans.len()
    } else {
        labels.len()
    };
    Seq::new(n, |k: int| (labels[k], spans[k].0, spans[k].1, spans[k].2))
}

/// The quick-select matches of `lines` (row `first` onward): the distinct
/// spans that the compiling patterns capture, sorted by row and cell,
/// each with the label for its place among `alphabet`'s labels.
pub open spec fn spec_quick_select(first: isize, lines: Seq<Seq<char>>, alphabet: Seq<char>) -> Seq<
    (Seq<char>, isize, usize, Seq<char>),
> {
    let spans = sort_by_row_col(collect_spans(lines, compiling(quick_select_patterns()), first));
    label_spans(spans, labels_for_alphabet(alphabet, spans.len()))
}

/// Quick-select matches for the text rows `lines`, the first of which is
/// row `first`, labelled from `alphabet`.
pub fn quick_select_matches(first: isize, lines: &[String], alphabet: &str) -> (r: Vec<HintMatch>)
    requires
        lines@.len() <= isize::MAX,
        lines@.len() == 0 || first + lines@.len() - 1 <= isize::MAX,
    ensures
        hint_views(r@) == spec_quick_select(first, views(lines@), alphabet@),
{
    let table = quick_select_captures(lines);
    let mut spans = gather_spans(first, lines, &table);
    sort_spans(&mut spans);
    let ghost sv = span_views(spans@);
    let labels = compute_labels_for_alphabet(alphabet, spans.len());
    let ghost lv = views(labels@);
    let n = if spans.len() < labels.len() {
        spans.len()
    } else {
        labels.len()
    };
    let mut out: Vec<HintMatch> = Vec::new();
    let mut k: usize = 0;
    while k < n
        invariant
            sv == span_views(spans@),
            lv == views(labels@),
            n <= spans@.len(),
            n <= labels@.len(),
            0 <= k <= n,
            hint_views(out@) == Seq::new(k as nat, |t: int| (lv[t], sv[t].0, sv[t].1, sv[t].2)),
        decreases n - k,
    {
        let sp = &spans[k];
        let h = HintMatch { label: labels[k].clone(), y: sp.y, x: sp.x, text: sp.text.clone() };
        let ghost before = out@;
        proof {
            assert(sv[k as int] == (sp.y, sp.x, sp.text@));
            assert(lv[k as int] == labels@[k as int]@);
            assert((h.label@, h.y, h.x, h.text@) == (lv[k as int], sv[k as int].0, sv[k as int].1, sv[k as int].2));
        }
        out.push(h);
        proof {
            assert(hint_views(out@) =~= hint_views(before).push((h.label@, h.y, h.x, h.text@)));
            assert(hint_views(out@) =~= Seq::new((k + 1) as nat, |t: int| (lv[t], sv[t].0, sv[t].1, sv[t].2)));
        }
        k += 1;
    }
    out
}

proof fn lemma_add_span_distinct(spans: Seq<(isize, usize, Seq<char>)>, c: (isize, usize, Seq<char>))
    requires
        spans.no_duplicates(),
    ensures
        add_span(spans, c).no_duplicates(),
{
    if !spans.contains(c) {
        let r = spans.push(c);
        assert forall|i: int, j: int| 0 <= i < r.len() && 0 <= j < r.len() && i != j implies r[i] != r[j] by {
            if i == spans.len() {
                assert(spans[j] == r[j]);
            } else if j == spans.len() {
                assert(spans[i] == r[i]);
            }
        }
    }
}

proof fn lemma_after_captures_distinct(
    spans: Seq<(isize, usize, Seq<char>)>,
    y: isize,
    hay: Seq<char>,
    caps: Seq<(Option<(usize, usize)>, Option<(usize, usize)>)>,
)
    requires
        spans.no_duplicates(),
    ensures
        after_captures(spans, y, hay, caps).no_duplicates(),
    decreases caps.len(),
{
    if caps.len() > 0 {
        lemma_after_captures_distinct(spans, y, hay, caps.drop_last());
        let prev = after_captures(spans, y, hay, caps.drop_last());
        match chosen_group(caps.last()) {
            Some(sp) => if sp.1 - sp.0 >= 4 {
                lemma_add_span_distinct(prev, (y, chars_before(hay, sp.0 as int) as usize, span_text(hay, sp)));
            },
            None => {},
        }
    }
}

proof fn lemma_after_patterns_distinct(
    spans: Seq<(isize, usize, Seq<char>)>,
    y: isize,
    hay: Seq<char>,
    pats: Seq<Seq<char>>,
)
    requires
        spans.no_duplicates(),
    ensures
        after_patterns(spans, y, hay, pats).no_duplicates(),
    decreases pats.len(),
{
    if pats.len() > 0 {
        lemma_after_patterns_distinct(spans, y, hay, pats.drop_last());
        lemma_after_captures_distinct(
            after_patterns(spans, y, hay, pats.drop_last()),
            y,
            hay,
            captures_of(pats.last(), hay),
        );
    }
}

/// No span is collected twice: the same row, cell and text appear once.
pub proof fn lemma_collected_spans_distinct(lines: Seq<Seq<char>>, pats: Seq<Seq<char>>, first: isize)
    ensures
        collect_spans(lines, pats, first).no_duplicates(),
    decreases lines.len(),
{
    if lines.len() > 0 {
        lemma_collected_spans_distinct(lines.drop_last(), pats, first);
        lemma_after_patterns_distinct(
            collect_spans(lines.drop_last(), pats, first),
            (first + lines.len() - 1) as isize,
            lines.last(),
            pats,
        );
    }
}

proof fn lemma_insert_sorted(sorted: Seq<(isize, usize, Seq<char>)>, e: (isize, usize, Seq<char>))
    requires
        forall|i: int, j: int| 0 <= i < j < sorted.len() ==> row_col_le(sorted[i], sorted[j]),
    ensures
        forall|i: int, j: int|
            0 <= i < j < insert_by_row_col(sorted, e).len() ==> row_col_le(
                insert_by_row_col(sorted, e)[i],
                insert_by_row_col(sorted, e)[j],
            ),
        insert_by_row_col(sorted, e).to_multiset() == sorted.to_multiset().insert(e),
    decreases sorted.len(),
{
    broadcast use vstd::seq_lib::group_to_multiset_ensures;
    if sorted.len() == 0 || row_col_le(sorted.last(), e) {
        let r = sorted.push(e);
        assert forall|i: int, j: int| 0 <= i < j < r.len() implies row_col_le(r[i], r[j]) by {
            if j == r.len() - 1 {
                if i < sorted.len() - 1 {
                    assert(row_col_le(sorted[i], sorted[sorted.len() - 1]));
                }
            } else {
                assert(r[i] == sorted[i] && r[j] == sorted[j]);
            }
        }
    } else {
        let d = sorted.drop_last();
        assert forall|i: int, j: int| 0 <= i < j < d.len() implies row_col_le(d[i], d[j]) by {
            assert(d[i] == sorted[i] && d[j] == sorted[j]);
        }
        lemma_insert_sorted(d, e);
        lemma_insert_len(d, e);
        let ins = insert_by_row_col(d, e);
        let last = sorted.last();
        let r = ins.push(last);
        assert(sorted =~= d.push(last));
        assert forall|i: int, j: int| 0 <= i < j < r.len() implies row_col_le(r[i], r[j]) by {
            if j == r.len() - 1 {
                let x = ins[i];
                assert(r[i] == x);
                assert(ins.contains(x));
                assert(ins.to_multiset().count(x) > 0);
                if x == e {
                } else {
                    assert(d.to_multiset().count(x) > 0);
                    assert(d.contains(x));
                    let k = choose|k: int| 0 <= k < d.len() && d[k] == x;
                    assert(sorted[k] == x);
                    assert(row_col_le(sorted[k], sorted[sorted.len() - 1]));
                }
            } else {
                assert(r[i] == ins[i] && r[j] == ins[j]);
            }
        }
    }
}

/// Quick-select's order: the sort puts every span no later than the ones
/// after it, by row and then cell, and keeps exactly the same spans.
pub proof fn lemma_sort_by_row_col(s: Seq<(isize, usize, Seq<char>)>)
    ensures
        forall|i: int, j: int|
            0 <= i < j < sort_by_row_col(s).len() ==> row_col_le(sort_by_row_col(s)[i], sort_by_row_col(s)[j]),
        sort_by_row_col(s).to_multiset() == s.to_multiset(),
    decreases s.len(),
{
    broadcast use vstd::seq_lib::group_to_multiset_ensures;
    if s.len() > 0 {
        lemma_sort_by_row_col(s.drop_last());
        lemma_insert_sorted(sort_by_row_col(s.drop_last()), s.last());
        assert(s =~= s.drop_last().push(s.last()));
    }
}

/// The quick-select matches come in reading order (row, then cell), and no
/// two of them are the same text at the same place.
pub proof fn lemma_quick_select_ordered_and_distinct(first: isize, lines: Seq<Seq<char>>, alphabet: Seq<char>)
    ensures
        ({
            let r = spec_quick_select(first, lines, alphabet);
            &&& forall|i: int, j: int|
                0 <= i < j < r.len() ==> (r[i].1 < r[j].1 || (r[i].1 == r[j].1 && r[i].2 <= r[j].2))
            &&& forall|i: int, j: int|
                0 <= i < j < r.len() ==> (r[i].1, r[i].2, r[i].3) != (r[j].1, r[j].2, r[j].3)
        }),
{
    let raw = collect_spans(lines, compiling(quick_select_patterns()), first);
    let spans = sort_by_row_col(raw);
    lemma_sort_by_row_col(raw);
    lemma_collected_spans_distinct(lines, compiling(quick_select_patterns()), first);
    raw.lemma_multiset_has_no_duplicates();
    spans.lemma_multiset_has_no_duplicates_conv();
    let r = spec_quick_select(first, lines, alphabet);
    assert forall|i: int, j: int| 0 <= i < j < r.len() implies (r[i].1 < r[j].1 || (r[i].1 == r[j].1 && r[i].2
        <= r[j].2)) && (r[i].1, r[i].2, r[i].3) != (r[j].1, r[j].2, r[j].3) by {
        assert(row_col_le(spans[i], spans[j]));
        assert(spans[i] != spans[j]);
        assert((r[i].1, r[i].2, r[i].3) == spans[i]);
        assert((r[j].1, r[j].2, r[j].3) == spans[j]);
    }
}

} // verus!
