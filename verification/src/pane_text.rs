//! Text of a pane's visible rows: trailing blanks trimmed, rows joined,
//! the title to show, and the picker rows seeded from the text.

use vstd::prelude::*;

use crate::find::views;
use crate::picker::{item_view, item_views, PickerItem};
use crate::text::{ascii_lower, chars_of, decimal, push_char, push_decimal, push_str, to_ascii_lower};

verus! {

/// `char::is_whitespace`: the Unicode `White_Space` characters.
pub open spec fn is_space(c: char) -> bool {
    let u = c as u32;
    (0x9 <= u && u <= 0xd) || u == 0x20 || u == 0x85 || u == 0xa0 || u == 0x1680 || (0x2000 <= u && u
        <= 0x200a) || u == 0x2028 || u == 0x2029 || u == 0x202f || u == 0x205f || u == 0x3000
}

/// `char::is_whitespace`.
pub fn is_whitespace(c: char) -> (r: bool)
    ensures
        r == is_space(c),
{
    let u = c as u32;
    (0x9 <= u && u <= 0xd) || u == 0x20 || u == 0x85 || u == 0xa0 || u == 0x1680 || (0x2000 <= u && u
        <= 0x200a) || u == 0x2028 || u == 0x2029 || u == 0x202f || u == 0x205f || u == 0x3000
}

/// `s` without its trailing whitespace (`str::trim_end`).
pub open spec fn trim_end(s: Seq<char>) -> Seq<char>
    decreases s.len(),
{
    if s.len() > 0 && is_space(s.last()) {
        trim_end(s.drop_last())
    } else {
        s
    }
}

/// `s` without its leading whitespace (`str::trim_start`).
pub open spec fn trim_start(s: Seq<char>) -> Seq<char>
    decreases s.len(),
{
    if s.len() > 0 && is_space(s[0]) {
        trim_start(s.drop_first())
    } else {
        s
    }
}

fn chars_to_string(cs: &Vec<char>, from: usize, to: usize) -> (r: String)
    requires
        from <= to <= cs@.len(),
    ensures
        r@ == cs@.subrange(from as int, to as int),
{
    let mut s = String::new();
    let mut k = from;
    while k < to
        invariant
            from <= k <= to <= cs@.len(),
            s@ == cs@.subrange(from as int, k as int),
        decreases to - k,
    {
        push_char(&mut s, cs[k]);
        k += 1;
        assert(s@ =~= cs@.subrange(from as int, k as int));
    }
    s
}

/// `s.trim_end()`, owned.
pub fn trimmed_end(s: &str) -> (r: String)
    ensures
        r@ == trim_end(s@),
{
    let cs = chars_of(s);
    let mut end = cs.len();
    assert(cs@.take(end as int) =~= s@);
    while end > 0 && is_whitespace(cs[end - 1])
        invariant
            end <= cs@.len(),
            cs@ == s@,
            trim_end(cs@.take(end as int)) == trim_end(s@),
        decreases end,
    {
        proof {
            assert(cs@.take(end as int).drop_last() =~= cs@.take(end - 1));
        }
        end -= 1;
    }
    proof {
        if end > 0 {
            assert(cs@.take(end as int).last() == cs@[end - 1]);
        }
        assert(cs@.take(end as int) =~= cs@.subrange(0, end as int));
    }
    chars_to_string(&cs, 0, end)
}

/// The rows joined by newlines, each without its trailing whitespace.
pub open spec fn joined_rows(rows: Seq<Seq<char>>) -> Seq<char>
    decreases rows.len(),
{
    if rows.len() == 0 {
        Seq::empty()
    } else if rows.len() == 1 {
        trim_end(rows[0])
    } else {
        joined_rows(rows.drop_last()) + seq!['\n'] + trim_end(rows.last())
    }
}

/// The visible rows as plain text: trailing blanks trimmed, rows joined by
/// newlines.
pub fn visible_plain_text(rows: &Vec<String>) -> (r: String)
    ensures
        r@ == joined_rows(views(rows@)),
{
    let ghost rv = views(rows@);
    let mut out = String::new();
    let mut i: usize = 0;
    assert(rv.take(0) =~= Seq::<Seq<char>>::empty());
    while i < rows.len()
        invariant
            rv == views(rows@),
            0 <= i <= rows@.len(),
            out@ == joined_rows(rv.take(i as int)),
        decreases rows@.len() - i,
    {
        if i > 0 {
            push_char(&mut out, '\n');
        }
        let t = trimmed_end(rows[i].as_str());
        push_str(&mut out, t.as_str());
        proof {
            assert(rv.take(i + 1).drop_last() =~= rv.take(i as int));
            assert(rv.take(i + 1).last() == rows@[i as int]@);
            if i == 0 {
                assert(out@ =~= joined_rows(rv.take(1)));
            }
        }
        i += 1;
    }
    assert(rv.take(rows@.len() as int) =~= rv);
    out
}

/// `a.eq_ignore_ascii_case(b)`.
pub open spec fn eq_ignore_ascii_case(a: Seq<char>, b: Seq<char>) -> bool {
    a.len() == b.len() && forall|i: int| 0 <= i < a.len() ==> ascii_lower(a[i]) == ascii_lower(b[i])
}

/// The title a pane shows: the program's title, unless it is empty or
/// just "wezterm" in any ASCII case, when the fallback shows instead.
pub open spec fn spec_pane_title(title: Seq<char>, fallback: Seq<char>) -> Seq<char> {
    if title.len() == 0 || eq_ignore_ascii_case(title, "wezterm"@) {
        fallback
    } else {
        title
    }
}

/// The title a pane shows.
pub fn pane_title(title: &str, fallback: &str) -> (r: String)
    ensures
        r@ == spec_pane_title(title@, fallback@),
{
    let a = chars_of(title);
    let b = chars_of("wezterm");
    let mut same = a.len() == b.len();
    if same {
        let mut i: usize = 0;
        while i < a.len()
            invariant
                a@ == title@,
                b@ == "wezterm"@,
                a@.len() == b@.len(),
                0 <= i <= a@.len(),
                same == forall|j: int| 0 <= j < i ==> ascii_lower(a@[j]) == ascii_lower(b@[j]),
            decreases a@.len() - i,
        {
            if to_ascii_lower(a[i]) != to_ascii_lower(b[i]) {
                same = false;
            }
            i += 1;
        }
    }
    let mut r = String::new();
    if a.len() == 0 || same {
        push_str(&mut r, fallback);
    } else {
        push_str(&mut r, title);
    }
    r
}

/// `line` without a final carriage return.
pub open spec fn strip_cr(line: Seq<char>) -> Seq<char> {
    if line.len() > 0 && line.last() == '\r' {
        line.drop_last()
    } else {
        line
    }
}

/// The finished lines and the open one after reading `s`: a newline ends
/// the open line (dropping a carriage return just before it).
pub open spec fn line_state(s: Seq<char>) -> (Seq<Seq<char>>, Seq<char>)
    decreases s.len(),
{
    if s.len() == 0 {
        (Seq::empty(), Seq::empty())
    } else {
        let (done, cur) = line_state(s.drop_last());
        if s.last() == '\n' {
            (done.push(strip_cr(cur)), Seq::empty())
        } else {
            (done, cur.push(s.last()))
        }
    }
}

/// `str::lines`: the lines of `s`, the last one counted only when it is
/// not empty.
pub open spec fn text_lines(s: Seq<char>) -> Seq<Seq<char>> {
    let (done, cur) = line_state(s);
    if cur.len() > 0 {
        done.push(cur)
    } else {
        done
    }
}

/// The lines of `s`, as `str::lines` yields them.
pub fn lines_of(s: &str) -> (r: Vec<String>)
    ensures
        views(r@) == text_lines(s@),
{
    let cs = chars_of(s);
    let mut done: Vec<String> = Vec::new();
    let mut cur = String::new();
    let mut i: usize = 0;
    assert(cs@.take(0) =~= Seq::<char>::empty());
    while i < cs.len()
        invariant
            cs@ == s@,
            0 <= i <= cs@.len(),
            (views(done@), cur@) == line_state(cs@.take(i as int)),
        decreases cs@.len() - i,
    {
        let c = cs[i];
        proof {
            assert(cs@.take(i + 1).drop_last() =~= cs@.take(i as int));
            assert(cs@.take(i + 1).last() == c);
        }
        if c == '\n' {
            let cc = chars_of(cur.as_str());
            let n = cc.len();
            let keep = if n > 0 && cc[n - 1] == '\r' {
                n - 1
            } else {
                n
            };
            let line = chars_to_string(&cc, 0, keep);
            proof {
                if n > 0 && cc@[n - 1] == '\r' {
                    assert(cc@.subrange(0, keep as int) =~= cur@.drop_last());
                } else {
                    assert(cc@.subrange(0, keep as int) =~= cur@);
                }
            }
            let ghost before = done@;
            done.push(line);
            assert(views(done@) =~= views(before).push(line@));
            cur = String::new();
        } else {
            push_char(&mut cur, c);
        }
        i += 1;
    }
    assert(cs@.take(cs@.len() as int) =~= cs@);
    if cur.as_str().as_bytes().len() > 0 {
        let ghost before = done@;
        let ghost cv = cur@;
        done.push(cur);
        assert(views(done@) =~= views(before).push(cv));
    } else {
        proof {
            if cur@.len() > 0 {
                vstd::utf8::encode_utf8_first_scalar(cur@);
                assert(false);
            }
        }
    }
    done
}

/// Every character of `s` is whitespace.
pub open spec fn all_space(s: Seq<char>) -> bool {
    forall|i: int| 0 <= i < s.len() ==> is_space(#[trigger] s[i])
}

/// Most rows that the search picker seeds.
pub const SEARCH_SEED_LIMIT: usize = 200;

/// The search picker's row for visible line `i` reading `line`.
pub open spec fn seed_item(i: int, line: Seq<char>) -> (Seq<char>, Seq<char>, Seq<char>) {
    ("search:"@ + decimal(i as nat) + ":"@ + line, line, "Visible line "@ + decimal((i + 1) as nat))
}

/// The first [`SEARCH_SEED_LIMIT`] non-blank lines as search picker rows,
/// numbered by their place among all lines.
pub open spec fn seed_items(lines: Seq<Seq<char>>) -> Seq<(Seq<char>, Seq<char>, Seq<char>)>
    decreases lines.len(),
{
    if lines.len() == 0 {
        Seq::empty()
    } else {
        let prev = seed_items(lines.drop_last());
        let i = lines.len() - 1;
        if all_space(lines[i]) || prev.len() >= SEARCH_SEED_LIMIT {
            prev
        } else {
            prev.push(seed_item(i, lines[i]))
        }
    }
}

fn blank(s: &str) -> (r: bool)
    ensures
        r == all_space(s@),
{
    let cs = chars_of(s);
    let mut i: usize = 0;
    while i < cs.len()
        invariant
            cs@ == s@,
            0 <= i <= cs@.len(),
            forall|j: int| 0 <= j < i ==> is_space(#[trigger] cs@[j]),
        decreases cs@.len() - i,
    {
        if !is_whitespace(cs[i]) {
            return false;
        }
        i += 1;
    }
    true
}

/// The search picker rows seeded from the visible text `text`.
pub fn search_seed_items(text: &str) -> (r: Vec<PickerItem>)
    ensures
        item_views(r@) == seed_items(text_lines(text@)),
{
    let lines = lines_of(text);
    let ghost lv = views(lines@);
    let mut items: Vec<PickerItem> = Vec::new();
    let mut i: usize = 0;
    assert(lv.take(0) =~= Seq::<Seq<char>>::empty());
    while i < lines.len()
        invariant
            lv == views(lines@),
            lv == text_lines(text@),
            0 <= i <= lines@.len(),
            item_views(items@) == seed_items(lv.take(i as int)),
        decreases lines@.len() - i,
    {
        let line = lines[i].as_str();
        proof {
            assert(lv.take(i + 1).drop_last() =~= lv.take(i as int));
            assert(lv.take(i + 1)[i as int] == line@);
        }
        if !blank(line) && items.len() < SEARCH_SEED_LIMIT {
            let mut id = String::new();
            push_str(&mut id, "search:");
            push_decimal(&mut id, i);
            push_str(&mut id, ":");
            push_str(&mut id, line);
            let mut title = String::new();
            push_str(&mut title, line);
            let mut sub = String::new();
            push_str(&mut sub, "Visible line ");
            assert(i < usize::MAX);
            push_decimal(&mut sub, i + 1);
            let it = PickerItem { id, title, subtitle: sub };
            let ghost before = items@;
            items.push(it);
            proof {
                assert(item_view(it) == seed_item(i as int, line@));
                assert(item_views(items@) =~= item_views(before).push(item_view(it)));
            }
        }
        i += 1;
    }
    assert(lv.take(lines@.len() as int) =~= lv);
    items
}

/// The finished tokens and the open one after reading `s`: whitespace
/// ends the open token.
pub open spec fn token_state(s: Seq<char>) -> (Seq<Seq<char>>, Seq<char>)
    decreases s.len(),
{
    if s.len() == 0 {
        (Seq::empty(), Seq::empty())
    } else {
        let (done, cur) = token_state(s.drop_last());
        if is_space(s.last()) {
            (if cur.len() > 0 {
                done.push(cur)
            } else {
                done
            }, Seq::empty())
        } else {
            (done, cur.push(s.last()))
        }
    }
}

/// `str::split_whitespace`: the maximal runs of non-whitespace characters.
pub open spec fn tokens(s: Seq<char>) -> Seq<Seq<char>> {
    let (done, cur) = token_state(s);
    if cur.len() > 0 {
        done.push(cur)
    } else {
        done
    }
}

/// Quotes, commas, semicolons, parentheses and brackets around a token.
pub open spec fn is_wrapper(c: char) -> bool {
    c == '"' || c == '\'' || c == '`' || c == ',' || c == ';' || c == ')' || c == '(' || c == '[' || c == ']'
}

/// `t` without wrapper characters at either end.
pub open spec fn unwrap_token(t: Seq<char>) -> Seq<char>
    decreases t.len(),
{
    if t.len() > 0 && is_wrapper(t[0]) {
        unwrap_token(t.drop_first())
    } else if t.len() > 0 && is_wrapper(t.last()) {
        unwrap_token(t.drop_last())
    } else {
        t
    }
}

/// Most rows that quick-select lists in the picker.
pub const QUICK_PICK_LIMIT: usize = 80;

/// The picker rows for quick-select: each distinct unwrapped token of at
/// least four bytes, in order, at most [`QUICK_PICK_LIMIT`].
pub open spec fn token_items(toks: Seq<Seq<char>>) -> Seq<(Seq<char>, Seq<char>, Seq<char>)>
    decreases toks.len(),
{
    if toks.len() == 0 {
        Seq::empty()
    } else {
        let prev = token_items(toks.drop_last());
        let t = unwrap_token(toks.last());
        if prev.len() >= QUICK_PICK_LIMIT || vstd::utf8::encode_utf8(t).len() < 4 || exists|k: int|
            0 <= k < prev.len() && #[trigger] prev[k].1 == t {
            prev
        } else {
            prev.push(("qsel:"@ + t, t, "Copy"@))
        }
    }
}

fn is_wrapper_char(c: char) -> (r: bool)
    ensures
        r == is_wrapper(c),
{
    c == '"' || c == '\'' || c == '`' || c == ',' || c == ';' || c == ')' || c == '(' || c == '[' || c == ']'
}

fn unwrapped(t: &str) -> (r: String)
    ensures
        r@ == unwrap_token(t@),
{
    let cs = chars_of(t);
    let mut a: usize = 0;
    let mut b: usize = cs.len();
    assert(cs@.subrange(0, cs@.len() as int) =~= t@);
    while a < b && is_wrapper_char(cs[a])
        invariant
            cs@ == t@,
            0 <= a <= b == cs@.len(),
            unwrap_token(cs@.subrange(a as int, b as int)) == unwrap_token(t@),
        decreases b - a,
    {
        proof {
            assert(cs@.subrange(a as int, b as int).drop_first() =~= cs@.subrange(a + 1, b as int));
        }
        a += 1;
    }
    while a < b && is_wrapper_char(cs[b - 1])
        invariant
            cs@ == t@,
            0 <= a <= b <= cs@.len(),
            a < b ==> !is_wrapper(cs@[a as int]),
            unwrap_token(cs@.subrange(a as int, b as int)) == unwrap_token(t@),
        decreases b - a,
    {
        proof {
            let sub = cs@.subrange(a as int, b as int);
            assert(sub[0] == cs@[a as int]);
            assert(sub.drop_last() =~= cs@.subrange(a as int, b - 1));
        }
        b -= 1;
    }
    proof {
        let sub = cs@.subrange(a as int, b as int);
        if a < b {
            assert(sub[0] == cs@[a as int]);
            assert(sub.last() == cs@[b - 1]);
        }
    }
    chars_to_string(&cs, a, b)
}

/// The tokens of `s`, as `str::split_whitespace` yields them.
pub fn tokens_of(s: &str) -> (r: Vec<String>)
    ensures
        views(r@) == tokens(s@),
{
    let cs = chars_of(s);
    let mut done: Vec<String> = Vec::new();
    let mut cur = String::new();
    let mut i: usize = 0;
    assert(cs@.take(0) =~= Seq::<char>::empty());
    while i < cs.len()
        invariant
            cs@ == s@,
            0 <= i <= cs@.len(),
            (views(done@), cur@) == token_state(cs@.take(i as int)),
        decreases cs@.len() - i,
    {
        let c = cs[i];
        proof {
            assert(cs@.take(i + 1).drop_last() =~= cs@.take(i as int));
            assert(cs@.take(i + 1).last() == c);
        }
        if is_whitespace(c) {
            if cur.as_str().is_empty() {
            } else {
                let ghost before = done@;
                let ghost cv = cur@;
                done.push(cur);
                assert(views(done@) =~= views(before).push(cv));
            }
            cur = String::new();
        } else {
            push_char(&mut cur, c);
        }
        i += 1;
    }
    assert(cs@.take(cs@.len() as int) =~= cs@);
    if !cur.as_str().is_empty() {
        let ghost before = done@;
        let ghost cv = cur@;
        done.push(cur);
        assert(views(done@) =~= views(before).push(cv));
    }
    done
}

fn has_title(items: &Vec<PickerItem>, t: &str) -> (r: bool)
    ensures
        r == exists|k: int| 0 <= k < items@.len() && #[trigger] item_views(items@)[k].1 == t@,
{
    let ghost iv = item_views(items@);
    let mut k: usize = 0;
    while k < items.len()
        invariant
            iv == item_views(items@),
            0 <= k <= items@.len(),
            forall|j: int| 0 <= j < k ==> (#[trigger] iv[j]).1 != t@,
        decreases items@.len() - k,
    {
        if crate::text::str_eq(items[k].title.as_str(), t) {
            assert(iv[k as int].1 == t@);
            return true;
        }
        k += 1;
    }
    false
}

/// The quick-select picker rows taken from the visible text `text`.
pub fn quick_select_items(text: &str) -> (r: Vec<PickerItem>)
    ensures
        item_views(r@) == token_items(tokens(text@)),
{
    let toks = tokens_of(text);
    let ghost tv = views(toks@);
    let mut items: Vec<PickerItem> = Vec::new();
    let mut i: usize = 0;
    assert(tv.take(0) =~= Seq::<Seq<char>>::empty());
    while i < toks.len()
        invariant
            tv == views(toks@),
            tv == tokens(text@),
            0 <= i <= toks@.len(),
            item_views(items@) == token_items(tv.take(i as int)),
            items@.len() <= QUICK_PICK_LIMIT,
        decreases toks@.len() - i,
    {
        proof {
            assert(tv.take(i + 1).drop_last() =~= tv.take(i as int));
            assert(tv.take(i + 1).last() == toks@[i as int]@);
        }
        if items.len() >= QUICK_PICK_LIMIT {
            proof {
                lemma_token_items_full(tv, i as int);
            }
            return items;
        }
        let t = unwrapped(toks[i].as_str());
        if t.as_str().as_bytes().len() >= 4 && !has_title(&items, t.as_str()) {
            let mut id = String::new();
            push_str(&mut id, "qsel:");
            push_str(&mut id, t.as_str());
            let mut sub = String::new();
            push_str(&mut sub, "Copy");
            let ghost tt = t@;
            let it = PickerItem { id, title: t, subtitle: sub };
            let ghost before = items@;
            items.push(it);
            assert(item_views(items@) =~= item_views(before).push(("qsel:"@ + tt, tt, "Copy"@)));
        }
        i += 1;
    }
    assert(tv.take(toks@.len() as int) =~= tv);
    items
}

proof fn lemma_token_items_full(tv: Seq<Seq<char>>, i: int)
    requires
        0 <= i <= tv.len(),
        token_items(tv.take(i)).len() >= QUICK_PICK_LIMIT,
    ensures
        token_items(tv) == token_items(tv.take(i)),
    decreases tv.len() - i,
{
    if i < tv.len() {
        assert(tv.take(i + 1).drop_last() =~= tv.take(i));
        lemma_token_items_full(tv, i + 1);
    } else {
        assert(tv.take(i) =~= tv);
    }
}

} // verus!
