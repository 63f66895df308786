//! Scrollback search and quick-select hint labels.

use vstd::prelude::*;

use crate::text::{chars_of, decimal, push_decimal, push_str};
use vstd::string::StringSliceAdditionalSpecFns;

verus! {

/// When true, search, quick-select and pane-select use the searchable picker
/// lists; by default they use the search bar, in-pane labels and pane badges.
pub const PICKER_SEARCH_QUICKSELECT_PANESELECT: bool = false;

/// What `str::to_lowercase` returns for a string (Unicode lowercase mapping,
/// with its context rule for final sigma).
pub uninterp spec fn lowercase(s: Seq<char>) -> Seq<char>;

/// What `char::to_lowercase` yields for one character, as a string.
pub uninterp spec fn char_lowercase(c: char) -> Seq<char>;

/// `str::to_lowercase`: the result is `lowercase` of the characters.
#[verifier::external_body]
pub(crate) fn lowercase_str(s: &str) -> (r: String)
    ensures
        r@ == lowercase(s@),
{
    s.to_lowercase()
}

/// `char::to_lowercase`, its characters collected into a string: the
/// result is `char_lowercase` of the character.
#[verifier::external_body]
fn lowercase_char(c: char) -> (r: String)
    ensures
        r@ == char_lowercase(c),
{
    c.to_lowercase().collect::<String>()
}

/// The quick-select alphabet used when none is configured.
pub open spec fn default_quick_select_alphabet() -> Seq<char> {
    "asdfqwerzxcvjklmiuopghtybn"@
}

/// The quick-select alphabet: the configured one, or the default one when
/// the configured alphabet is empty.
pub fn quick_select_alphabet(configured: &str) -> (r: String)
    ensures
        r@ == if configured@.len() == 0 {
            default_quick_select_alphabet()
        } else {
            configured@
        },
{
    if configured.is_empty() {
        "asdfqwerzxcvjklmiuopghtybn".to_owned()
    } else {
        configured.to_owned()
    }
}

/// `needle` occurs in `hay` at byte `i`.
pub open spec fn bytes_match_at(hay: Seq<u8>, needle: Seq<u8>, i: int) -> bool {
    0 <= i && i + needle.len() <= hay.len() && hay.subrange(i, i + needle.len()) == needle
}

/// The first byte offset at which `needle` occurs in `hay`.
pub open spec fn first_match(hay: Seq<u8>, needle: Seq<u8>) -> Option<int> {
    if exists|i: int| bytes_match_at(hay, needle, i) {
        Some(
            choose|i: int|
                bytes_match_at(hay, needle, i) && forall|j: int|
                    0 <= j < i ==> !bytes_match_at(hay, needle, j),
        )
    } else {
        None
    }
}

/// Whether `needle` occurs in `hay` at byte `i`.
fn matches_at(hay: &[u8], needle: &[u8], i: usize) -> (r: bool)
    requires
        i + needle@.len() <= hay@.len(),
    ensures
        r == bytes_match_at(hay@, needle@, i as int),
{
    let hl = hay.len();
    let mut k: usize = 0;
    while k < needle.len()
        invariant
            hl == hay@.len(),
            i + needle@.len() <= hay@.len(),
            0 <= k <= needle@.len(),
            forall|t: int| 0 <= t < k ==> hay@[i + t] == needle@[t],
        decreases needle@.len() - k,
    {
        if hay[i + k] != needle[k] {
            assert(hay@.subrange(i as int, i + needle@.len())[k as int] != needle@[k as int]);
            return false;
        }
        k += 1;
    }
    assert(hay@.subrange(i as int, i + needle@.len()) =~= needle@);
    true
}

/// First byte offset of `needle` in `hay`.
pub fn find_bytes(hay: &[u8], needle: &[u8]) -> (r: Option<usize>)
    ensures
        r matches Some(i) ==> first_match(hay@, needle@) == Some(i as int),
        r is None ==> first_match(hay@, needle@) is None,
{
    if needle.len() > hay.len() {
        assert forall|j: int| !bytes_match_at(hay@, needle@, j) by {}
        return None;
    }
    if needle.len() == 0 {
        proof {
            assert(hay@.subrange(0, 0) =~= needle@);
            assert(bytes_match_at(hay@, needle@, 0));
        }
        return Some(0);
    }
    let end = hay.len() - needle.len() + 1;
    let mut i: usize = 0;
    while i < end
        invariant
            end == hay@.len() - needle@.len() + 1,
            0 <= i <= end,
            forall|j: int| 0 <= j < i ==> !bytes_match_at(hay@, needle@, j),
        decreases end - i,
    {
        if matches_at(hay, needle, i) {
            proof {
                lemma_first_match_is(hay@, needle@, i as int);
            }
            return Some(i);
        }
        i += 1;
    }
    assert forall|j: int| !bytes_match_at(hay@, needle@, j) by {
        if 0 <= j < i {
        }
    }
    None
}

proof fn lemma_first_match_is(hay: Seq<u8>, needle: Seq<u8>, i: int)
    requires
        bytes_match_at(hay, needle, i),
        forall|j: int| 0 <= j < i ==> !bytes_match_at(hay, needle, j),
    ensures
        first_match(hay, needle) == Some(i),
{
    let w = choose|w: int|
        bytes_match_at(hay, needle, w) && forall|j: int| 0 <= j < w ==> !bytes_match_at(hay, needle, j);
    if w < i {
    } else if w > i {
    }
}

/// `from + i` when it fits in `usize`.
pub open spec fn offset_from(from: usize, found: Option<int>) -> Option<usize> {
    match found {
        Some(i) => if from + i <= usize::MAX {
            Some((from + i) as usize)
        } else {
            None
        },
        None => None,
    }
}

/// Byte offset of `needle` in `hay` at or after `from`. Case-insensitive
/// search looks for the lowercased needle in the lowercased rest of `hay`
/// and reports that offset plus `from`.
#[verifier::opaque]
pub open spec fn spec_find_sub(hay: Seq<char>, needle: Seq<char>, from: usize, case_sensitive: bool) -> Option<
    usize,
> {
    let hb = vstd::utf8::encode_utf8(hay);
    if from > hb.len() {
        None
    } else {
        let rest = vstd::utf8::decode_utf8(hb.subrange(from as int, hb.len() as int));
        if case_sensitive {
            offset_from(from, first_match(vstd::utf8::encode_utf8(rest), vstd::utf8::encode_utf8(needle)))
        } else {
            offset_from(
                from,
                first_match(
                    vstd::utf8::encode_utf8(lowercase(rest)),
                    vstd::utf8::encode_utf8(lowercase(needle)),
                ),
            )
        }
    }
}

/// Offset of `needle` in `hay`, searching from byte `from`.
pub fn find_sub(hay: &str, needle: &str, from: usize, case_sensitive: bool) -> (r: Option<usize>)
    requires
        from > hay.spec_bytes().len() || vstd::utf8::is_char_boundary(hay.spec_bytes(), from as int),
    ensures
        r == spec_find_sub(hay@, needle@, from, case_sensitive),
{
    proof {
        reveal(spec_find_sub);
    }
    let hb = hay.as_bytes();
    if from > hb.len() {
        return None;
    }
    let (_, rest) = hay.split_at(from);
    proof {
        assert(rest.spec_bytes() =~= hay.spec_bytes().subrange(from as int, hay.spec_bytes().len() as int));
        vstd::utf8::encode_utf8_decode_utf8(rest@);
        assert(rest@ == vstd::utf8::decode_utf8(rest.spec_bytes()));
    }
    let found = if case_sensitive {
        find_bytes(rest.as_bytes(), needle.as_bytes())
    } else {
        let h = lowercase_str(rest);
        let n = lowercase_str(needle);
        find_bytes(h.as_str().as_bytes(), n.as_str().as_bytes())
    };
    match found {
        Some(i) => if i <= usize::MAX - from {
            Some(from + i)
        } else {
            None
        },
        None => None,
    }
}

pub open spec fn views(v: Seq<String>) -> Seq<Seq<char>> {
    v.map_values(|s: String| s@)
}

/// One label symbol per alphabet character: its lowercase form.
pub open spec fn label_alphabet(alphabet: Seq<char>) -> Seq<Seq<char>> {
    alphabet.map_values(|c: char| char_lowercase(c))
}

/// `prefix` followed by each of the first `k` symbols.
pub open spec fn prefixed(alpha: Seq<Seq<char>>, prefix: Seq<char>, k: int) -> Seq<Seq<char>> {
    alpha.take(k).map_values(|s: Seq<char>| prefix + s)
}

/// Label rounds: while there are fewer than `n` labels and single labels
/// left, the last single label becomes a prefix for as many two-part labels
/// as are still needed (at most one per symbol), placed before the earlier
/// two-part labels.
pub open spec fn label_rounds(
    alpha: Seq<Seq<char>>,
    primary: Seq<Seq<char>>,
    secondary: Seq<Seq<char>>,
    n: nat,
) -> (Seq<Seq<char>>, Seq<Seq<char>>)
    decreases primary.len(),
{
    if primary.len() + secondary.len() >= n || primary.len() == 0 {
        (primary, secondary)
    } else {
        let prefix = primary.last();
        let rest = primary.drop_last();
        let need = n - rest.len() - secondary.len();
        let k = if need < alpha.len() {
            need
        } else {
            alpha.len() as int
        };
        label_rounds(alpha, rest, prefixed(alpha, prefix, k) + secondary, n)
    }
}

/// Quick-select labels for `n` matches over `alphabet`: decimal numbers
/// without an alphabet; otherwise the single labels left after the rounds
/// (only as many as still fit), then the two-part labels, at most `n`.
pub open spec fn labels_for_alphabet(alphabet: Seq<char>, n: nat) -> Seq<Seq<char>> {
    if n == 0 {
        Seq::empty()
    } else if alphabet.len() == 0 {
        Seq::new(n, |i: int| decimal(i as nat))
    } else {
        let alpha = label_alphabet(alphabet);
        let (p, s) = label_rounds(alpha, alpha, Seq::empty(), n);
        let keep = if n <= s.len() {
            0
        } else if p.len() < n - s.len() {
            p.len() as int
        } else {
            n - s.len()
        };
        truncated(p.take(keep) + s, n)
    }
}

/// `s` cut to at most `n` items.
pub open spec fn truncated<A>(s: Seq<A>, n: nat) -> Seq<A> {
    if s.len() <= n {
        s
    } else {
        s.take(n as int)
    }
}

proof fn lemma_views_push(v: Seq<String>, x: String)
    ensures
        views(v.push(x)) == views(v).push(x@),
{
    assert(views(v.push(x)) =~= views(v).push(x@));
}

proof fn lemma_views_add(a: Seq<String>, b: Seq<String>)
    ensures
        views(a + b) == views(a) + views(b),
{
    assert(views(a + b) =~= views(a) + views(b));
}

proof fn lemma_views_take(v: Seq<String>, k: int)
    requires
        0 <= k <= v.len(),
    ensures
        views(v.take(k)) == views(v).take(k),
{
    assert(views(v.take(k)) =~= views(v).take(k));
}

/// Quick-select labels for `num_matches` matches, shortest first.
pub fn compute_labels_for_alphabet(alphabet: &str, num_matches: usize) -> (r: Vec<String>)
    ensures
        views(r@) == labels_for_alphabet(alphabet@, num_matches as nat),
{
    if num_matches == 0 {
        assert(views(Seq::<String>::empty()) =~= Seq::<Seq<char>>::empty());
        return Vec::new();
    }
    let chars = chars_of(alphabet);
    let mut alpha: Vec<String> = Vec::new();
    let mut i: usize = 0;
    assert(views(alpha@) =~= label_alphabet(alphabet@).take(0));
    while i < chars.len()
        invariant
            chars@ == alphabet@,
            0 <= i <= chars@.len(),
            views(alpha@) == label_alphabet(alphabet@).take(i as int),
        decreases chars@.len() - i,
    {
        let l = lowercase_char(chars[i]);
        proof {
            lemma_views_push(alpha@, l);
        }
        alpha.push(l);
        i += 1;
        assert(views(alpha@) =~= label_alphabet(alphabet@).take(i as int));
    }
    assert(label_alphabet(alphabet@).take(chars@.len() as int) =~= label_alphabet(alphabet@));
    if alpha.len() == 0 {
        let mut out: Vec<String> = Vec::new();
        let mut k: usize = 0;
        assert(views(out@) =~= Seq::new(0, |j: int| decimal(j as nat)));
        while k < num_matches
            invariant
                0 <= k <= num_matches,
                views(out@) == Seq::new(k as nat, |j: int| decimal(j as nat)),
            decreases num_matches - k,
        {
            let mut s = String::new();
            push_decimal(&mut s, k);
            proof {
                lemma_views_push(out@, s);
            }
            out.push(s);
            k += 1;
            assert(views(out@) =~= Seq::new(k as nat, |j: int| decimal(j as nat)));
        }
        return out;
    }
    let ghost a = views(alpha@);
    let n = num_matches;
    let mut primary: Vec<String> = Vec::new();
    let mut j: usize = 0;
    assert(views(primary@) =~= a.take(0));
    while j < alpha.len()
        invariant
            a == views(alpha@),
            0 <= j <= alpha@.len(),
            views(primary@) == a.take(j as int),
        decreases alpha@.len() - j,
    {
        let c = alpha[j].clone();
        proof {
            lemma_views_push(primary@, c);
            assert(c@ == a[j as int]);
        }
        primary.push(c);
        j += 1;
        assert(views(primary@) =~= a.take(j as int));
    }
    assert(a.take(alpha@.len() as int) =~= a);
    let mut secondary: Vec<String> = Vec::new();
    assert(views(secondary@) =~= Seq::<Seq<char>>::empty());
    while primary.len() > 0 && primary.len() < n && secondary.len() < n - primary.len()
        invariant
            a == views(alpha@),
            label_rounds(a, views(primary@), views(secondary@), n as nat) == label_rounds(
                a,
                a,
                Seq::empty(),
                n as nat,
            ),
        decreases primary@.len(),
    {
        let ghost p0 = views(primary@);
        let ghost s0 = views(secondary@);
        let ghost pv = primary@;
        let prefix = primary.pop().unwrap();
        proof {
            assert(primary@ == pv.drop_last());
            assert(views(primary@) =~= p0.drop_last());
            assert(prefix@ == p0.last());
        }
        let need = n - primary.len() - secondary.len();
        let k = if need < alpha.len() {
            need
        } else {
            alpha.len()
        };
        let mut fresh: Vec<String> = Vec::new();
        let mut t: usize = 0;
        assert(views(fresh@) =~= prefixed(a, prefix@, 0));
        while t < k
            invariant
                a == views(alpha@),
                k <= alpha@.len(),
                0 <= t <= k,
                views(fresh@) == prefixed(a, prefix@, t as int),
            decreases k - t,
        {
            let mut label = prefix.clone();
            push_str(&mut label, alpha[t].as_str());
            proof {
                lemma_views_push(fresh@, label);
                assert(label@ == prefix@ + a[t as int]);
            }
            fresh.push(label);
            t += 1;
            assert(views(fresh@) =~= prefixed(a, prefix@, t as int));
        }
        let ghost fv = fresh@;
        let ghost sv = secondary@;
        let mut next: Vec<String> = fresh;
        next.append(&mut secondary);
        secondary = next;
        proof {
            assert(secondary@ == fv + sv);
            lemma_views_add(fv, sv);
            assert(views(secondary@) == prefixed(a, p0.last(), k as int) + s0);
        }
    }
    let ghost p1 = views(primary@);
    let ghost s1 = views(secondary@);
    assert(label_rounds(a, p1, s1, n as nat) == (p1, s1));
    let room = if n <= secondary.len() {
        0
    } else {
        n - secondary.len()
    };
    let keep = if primary.len() < room {
        primary.len()
    } else {
        room
    };
    let ghost pv1 = primary@;
    primary.truncate(keep);
    let ghost pk = primary@;
    let ghost sv1 = secondary@;
    let mut out = primary;
    out.append(&mut secondary);
    let ghost joined = out@;
    out.truncate(n);
    proof {
        assert(pk == pv1.take(keep as int));
        lemma_views_take(pv1, keep as int);
        assert(joined == pk + sv1);
        lemma_views_add(pk, sv1);
        if n < joined.len() {
            lemma_views_take(joined, n as int);
            assert(out@ == joined.take(n as int));
        } else {
            assert(out@ == joined);
        }
    }
    out
}

proof fn lemma_label_rounds_len(alpha: Seq<Seq<char>>, p: Seq<Seq<char>>, s: Seq<Seq<char>>, n: nat)
    requires
        p.len() <= alpha.len(),
        s.len() <= (alpha.len() - p.len()) * alpha.len(),
        p.len() + s.len() < n ==> s.len() == (alpha.len() - p.len()) * alpha.len(),
    ensures
        ({
            let (pp, ss) = label_rounds(alpha, p, s, n);
            &&& pp.len() <= alpha.len()
            &&& ss.len() <= (alpha.len() - pp.len()) * alpha.len()
            &&& {
                ||| pp.len() + ss.len() >= n
                ||| (pp.len() == 0 && ss.len() == alpha.len() * alpha.len())
            }
        }),
    decreases p.len(),
{
    let m = alpha.len() as int;
    if p.len() + s.len() >= n || p.len() == 0 {
        if p.len() == 0 && p.len() + s.len() < n {
            assert(s.len() == m * m);
        }
    } else {
        let rest = p.drop_last();
        let need = n - rest.len() - s.len();
        let k = if need < m {
            need
        } else {
            m
        };
        let s2 = prefixed(alpha, p.last(), k) + s;
        assert(s2.len() == k + s.len());
        assert(s2.len() <= (m - rest.len()) * m) by (nonlinear_arith)
            requires
                s2.len() == k + s.len(),
                k <= m,
                s.len() <= (m - p.len()) * m,
                rest.len() == p.len() - 1,
        ;
        if k == m && rest.len() + s2.len() < n {
            assert(s2.len() == (m - rest.len()) * m) by (nonlinear_arith)
                requires
                    s2.len() == m + s.len(),
                    s.len() == (m - p.len()) * m,
                    rest.len() == p.len() - 1,
            ;
        }
        lemma_label_rounds_len(alpha, rest, s2, n);
    }
}

/// With an alphabet of `m` characters there are `min(n, m * m)` labels for
/// `n` matches; without an alphabet there are `n` numbered labels.
pub proof fn lemma_label_count(alphabet: Seq<char>, n: nat)
    ensures
        labels_for_alphabet(alphabet, n).len() == if alphabet.len() == 0 {
            n as int
        } else if n < alphabet.len() * alphabet.len() {
            n as int
        } else {
            (alphabet.len() * alphabet.len()) as int
        },
{
    if n > 0 && alphabet.len() > 0 {
        let alpha = label_alphabet(alphabet);
        let m = alpha.len() as int;
        assert(0 <= (m - m) * m) by (nonlinear_arith);
        lemma_label_rounds_len(alpha, alpha, Seq::empty(), n);
        let (pp, ss) = label_rounds(alpha, alpha, Seq::empty(), n);
        assert(pp.len() + ss.len() <= m * m) by (nonlinear_arith)
            requires
                pp.len() <= m,
                ss.len() <= (m - pp.len()) * m,
                m >= 1,
        ;
    }
}

/// `a` begins `b`.
pub open spec fn is_prefix_of(a: Seq<char>, b: Seq<char>) -> bool {
    a.len() <= b.len() && b.take(a.len() as int) == a
}

/// No item of `s` begins another (so in particular no two are equal).
pub open spec fn prefix_free(s: Seq<Seq<char>>) -> bool {
    forall|i: int, j: int|
        0 <= i < s.len() && 0 <= j < s.len() && i != j ==> !is_prefix_of(#[trigger] s[i], #[trigger] s[j])
}

/// `l` is a two-part label whose first symbol comes at or after `from`.
pub open spec fn is_pair_label(alpha: Seq<Seq<char>>, from: int, l: Seq<char>) -> bool {
    exists|q: int, j: int| from <= q < alpha.len() && 0 <= j < alpha.len() && l == alpha[q] + alpha[j]
}

proof fn lemma_prefix_chain(a: Seq<char>, x: Seq<char>, y: Seq<char>, b: Seq<char>)
    requires
        is_prefix_of(x, y),
        a.len() <= x.len(),
        x.take(a.len() as int) == a,
        b.len() <= y.len(),
        y.take(b.len() as int) == b,
    ensures
        a.len() <= b.len() ==> is_prefix_of(a, b),
        b.len() <= a.len() ==> is_prefix_of(b, a),
{
    if a.len() <= b.len() {
        assert forall|k: int| 0 <= k < a.len() implies b.take(a.len() as int)[k] == a[k] by {
            assert(b[k] == y[k]);
            assert(y.take(x.len() as int)[k] == x[k]);
            assert(x.take(a.len() as int)[k] == a[k]);
        }
        assert(b.take(a.len() as int) =~= a);
        if a.len() == b.len() {
            assert(b.take(b.len() as int) =~= b);
            assert(a.take(b.len() as int) =~= a);
        }
    } else {
        assert forall|k: int| 0 <= k < b.len() implies a.take(b.len() as int)[k] == b[k] by {
            assert(a[k] == x[k]);
            assert(y.take(x.len() as int)[k] == x[k]);
            assert(y.take(b.len() as int)[k] == b[k]);
        }
        assert(a.take(b.len() as int) =~= b);
    }
}

/// Two different two-part labels over prefix-free symbols never begin one
/// another.
proof fn lemma_pair_not_prefix(alpha: Seq<Seq<char>>, q1: int, j1: int, q2: int, j2: int)
    requires
        prefix_free(alpha),
        0 <= q1 < alpha.len(),
        0 <= j1 < alpha.len(),
        0 <= q2 < alpha.len(),
        0 <= j2 < alpha.len(),
        q1 != q2 || j1 != j2,
    ensures
        !is_prefix_of(alpha[q1] + alpha[j1], alpha[q2] + alpha[j2]),
{
    let x = alpha[q1] + alpha[j1];
    let y = alpha[q2] + alpha[j2];
    if is_prefix_of(x, y) {
        assert(x.take(alpha[q1].len() as int) =~= alpha[q1]);
        assert(y.take(alpha[q2].len() as int) =~= alpha[q2]);
        if q1 != q2 {
            lemma_prefix_chain(alpha[q1], x, y, alpha[q2]);
            assert(!is_prefix_of(alpha[q1], alpha[q2]));
            assert(!is_prefix_of(alpha[q2], alpha[q1]));
        } else {
            let a = alpha[q1];
            let c1 = alpha[j1];
            let c2 = alpha[j2];
            assert forall|k: int| 0 <= k < c1.len() implies c2.take(c1.len() as int)[k] == c1[k] by {
                assert(x[a.len() + k] == c1[k]);
                assert(y[a.len() + k] == c2[k]);
                assert(y.take(x.len() as int)[a.len() + k] == x[a.len() + k]);
            }
            assert(c2.take(c1.len() as int) =~= c1);
            assert(!is_prefix_of(c1, c2));
        }
    }
}

/// A single label and a two-part label with another first symbol never
/// begin one another.
proof fn lemma_single_pair(alpha: Seq<Seq<char>>, i: int, q: int, j: int)
    requires
        prefix_free(alpha),
        0 <= i < alpha.len(),
        0 <= q < alpha.len(),
        0 <= j < alpha.len(),
        i != q,
    ensures
        !is_prefix_of(alpha[i], alpha[q] + alpha[j]),
        !is_prefix_of(alpha[q] + alpha[j], alpha[i]),
{
    let y = alpha[q] + alpha[j];
    let a = alpha[i];
    let b = alpha[q];
    assert(y.take(b.len() as int) =~= b);
    assert(!is_prefix_of(a, b) && !is_prefix_of(b, a));
    if is_prefix_of(a, y) {
        assert(a.take(a.len() as int) =~= a);
        lemma_prefix_chain(a, a, y, b);
    }
    if is_prefix_of(y, a) {
        assert(a.take(a.len() as int) =~= a);
        lemma_prefix_chain(b, y, a, a);
    }
}

/// The first `singles` labels of `r` are the symbols in alphabet order, and
/// every later one is a two-part label whose first symbol is not among them.
pub open spec fn singles_then_pairs(r: Seq<Seq<char>>, alpha: Seq<Seq<char>>, singles: int) -> bool {
    &&& 0 <= singles <= r.len()
    &&& singles <= alpha.len()
    &&& forall|t: int| 0 <= t < singles ==> #[trigger] r[t] == alpha[t]
    &&& forall|t: int| singles <= t < r.len() ==> is_pair_label(alpha, singles, #[trigger] r[t])
}

/// The rounds keep the single labels a prefix of the symbols, every
/// two-part label built on a symbol that is no longer single, and no label
/// beginning another.
proof fn lemma_label_rounds_shape(alpha: Seq<Seq<char>>, primary: Seq<Seq<char>>, secondary: Seq<Seq<char>>, n: nat)
    requires
        prefix_free(alpha),
        primary.len() <= alpha.len(),
        primary == alpha.take(primary.len() as int),
        forall|t: int| 0 <= t < secondary.len() ==> is_pair_label(alpha, primary.len() as int, #[trigger] secondary[t]),
        prefix_free(secondary),
    ensures
        ({
            let (p, s) = label_rounds(alpha, primary, secondary, n);
            &&& p.len() <= alpha.len()
            &&& p == alpha.take(p.len() as int)
            &&& forall|t: int| 0 <= t < s.len() ==> is_pair_label(alpha, p.len() as int, #[trigger] s[t])
            &&& prefix_free(s)
        }),
    decreases primary.len(),
{
    if !(primary.len() + secondary.len() >= n || primary.len() == 0) {
        let q = primary.len() - 1;
        let prefix = primary.last();
        let rest = primary.drop_last();
        let need = n - rest.len() - secondary.len();
        let k = if need < alpha.len() {
            need
        } else {
            alpha.len() as int
        };
        let block = prefixed(alpha, prefix, k);
        let ns = block + secondary;
        assert(prefix == alpha[q]);
        assert(rest =~= alpha.take(q));
        assert forall|t: int| 0 <= t < block.len() implies #[trigger] block[t] == alpha[q] + alpha[t] by {}
        assert forall|t: int| 0 <= t < ns.len() implies is_pair_label(alpha, q, #[trigger] ns[t]) by {
            if t < block.len() {
                assert(ns[t] == alpha[q] + alpha[t]);
            } else {
                assert(ns[t] == secondary[t - block.len()]);
                assert(is_pair_label(alpha, primary.len() as int, secondary[t - block.len()]));
            }
        }
        assert forall|a: int, b: int| 0 <= a < ns.len() && 0 <= b < ns.len() && a != b implies !is_prefix_of(
            #[trigger] ns[a],
            #[trigger] ns[b],
        ) by {
            if a < block.len() && b < block.len() {
                assert(ns[a] == alpha[q] + alpha[a] && ns[b] == alpha[q] + alpha[b]);
                lemma_pair_not_prefix(alpha, q, a, q, b);
            } else if a >= block.len() && b >= block.len() {
                assert(ns[a] == secondary[a - block.len()] && ns[b] == secondary[b - block.len()]);
            } else if a < block.len() {
                let sb = secondary[b - block.len()];
                assert(ns[b] == sb);
                assert(is_pair_label(alpha, primary.len() as int, sb));
                let (q2, j2) = choose|q2: int, j2: int|
                    primary.len() <= q2 < alpha.len() && 0 <= j2 < alpha.len() && sb == alpha[q2] + alpha[j2];
                assert(ns[a] == alpha[q] + alpha[a]);
                lemma_pair_not_prefix(alpha, q, a, q2, j2);
            } else {
                let sa = secondary[a - block.len()];
                assert(ns[a] == sa);
                assert(is_pair_label(alpha, primary.len() as int, sa));
                let (q1, j1) = choose|q1: int, j1: int|
                    primary.len() <= q1 < alpha.len() && 0 <= j1 < alpha.len() && sa == alpha[q1] + alpha[j1];
                assert(ns[b] == alpha[q] + alpha[b]);
                lemma_pair_not_prefix(alpha, q1, j1, q, b);
            }
        }
        lemma_label_rounds_shape(alpha, rest, ns, n);
    }
}

/// The labels for a non-empty alphabet whose lowercase symbols are pairwise
/// prefix-free: no label begins another (so no two are equal); the
/// one-symbol labels come first, each the symbol at its own position of
/// the alphabet, and every label after them is two symbols, the first of
/// which is not among the one-symbol labels.
pub proof fn lemma_labels_prefix_free(alphabet: Seq<char>, n: nat)
    requires
        alphabet.len() > 0,
        prefix_free(label_alphabet(alphabet)),
    ensures
        ({
            let r = labels_for_alphabet(alphabet, n);
            let alpha = label_alphabet(alphabet);
            &&& prefix_free(r)
            &&& exists|singles: int| #[trigger] singles_then_pairs(r, alpha, singles)
        }),
{
    let r = labels_for_alphabet(alphabet, n);
    let alpha = label_alphabet(alphabet);
    if n == 0 {
        assert(r.len() == 0);
        assert(singles_then_pairs(r, alpha, 0));
    } else {
        assert(alpha.take(alpha.len() as int) =~= alpha);
        lemma_label_rounds_shape(alpha, alpha, Seq::empty(), n);
        let (p, s) = label_rounds(alpha, alpha, Seq::empty(), n);
        let keep = if n <= s.len() {
            0
        } else if p.len() < n - s.len() {
            p.len() as int
        } else {
            n - s.len()
        };
        let all = p.take(keep) + s;
        assert forall|t: int| 0 <= t < keep implies #[trigger] all[t] == alpha[t] by {
            assert(all[t] == p[t]);
        }
        assert forall|t: int| keep <= t < all.len() implies is_pair_label(alpha, keep, #[trigger] all[t]) by {
            assert(all[t] == s[t - keep]);
            assert(is_pair_label(alpha, p.len() as int, s[t - keep]));
            let (q, j) = choose|q: int, j: int|
                p.len() <= q < alpha.len() && 0 <= j < alpha.len() && s[t - keep] == alpha[q] + alpha[j];
            assert(keep <= q);
        }
        assert forall|a: int, b: int| 0 <= a < all.len() && 0 <= b < all.len() && a != b implies !is_prefix_of(
            #[trigger] all[a],
            #[trigger] all[b],
        ) by {
            if a < keep && b < keep {
                assert(all[a] == alpha[a] && all[b] == alpha[b]);
            } else if a >= keep && b >= keep {
                assert(all[a] == s[a - keep] && all[b] == s[b - keep]);
            } else if a < keep {
                assert(all[a] == alpha[a]);
                assert(is_pair_label(alpha, keep, all[b]));
                let (q, j) = choose|q: int, j: int|
                    keep <= q < alpha.len() && 0 <= j < alpha.len() && all[b] == alpha[q] + alpha[j];
                lemma_single_pair(alpha, a, q, j);
            } else {
                assert(all[b] == alpha[b]);
                assert(is_pair_label(alpha, keep, all[a]));
                let (q, j) = choose|q: int, j: int|
                    keep <= q < alpha.len() && 0 <= j < alpha.len() && all[a] == alpha[q] + alpha[j];
                lemma_single_pair(alpha, b, q, j);
            }
        }
        let singles = if keep <= r.len() {
            keep
        } else {
            r.len() as int
        };
        assert(r == truncated(all, n));
        assert forall|t: int| 0 <= t < r.len() implies #[trigger] r[t] == all[t] by {}
        assert forall|a: int, b: int| 0 <= a < r.len() && 0 <= b < r.len() && a != b implies !is_prefix_of(
            #[trigger] r[a],
            #[trigger] r[b],
        ) by {
            assert(r[a] == all[a] && r[b] == all[b]);
        }
        assert forall|t: int| singles <= t < r.len() implies is_pair_label(alpha, singles, #[trigger] r[t]) by {
            assert(r[t] == all[t]);
            assert(is_pair_label(alpha, keep, all[t]));
            let (q, j) = choose|q: int, j: int|
                keep <= q < alpha.len() && 0 <= j < alpha.len() && all[t] == alpha[q] + alpha[j];
        }
        assert forall|t: int| 0 <= t < singles implies #[trigger] r[t] == alpha[t] by {
            assert(r[t] == all[t]);
        }
        assert(singles_then_pairs(r, alpha, singles));
    }
}

} // verus!

verus! {

/// One search hit: row, first cell and width in cells.
#[derive(Clone, Copy, Debug, PartialEq, Eq)]
pub struct SearchHit {
    pub y: isize,
    pub x: usize,
    pub len: usize,
}

/// Most hits that one search reports.
pub const MAX_SEARCH_HITS: usize = 4000;

/// The number of characters before byte `off` of `hay`.
pub open spec fn chars_before(hay: Seq<char>, off: int) -> int {
    vstd::utf8::decode_utf8(vstd::utf8::encode_utf8(hay).take(off)).len() as int
}

/// How far the search moves past a hit: the needle's byte length, at least one.
pub open spec fn search_step(query: Seq<char>) -> int {
    let n = vstd::utf8::encode_utf8(query).len();
    if n == 0 {
        1
    } else {
        n as int
    }
}

/// Byte offsets of the hits of `query` in `hay`, searching from `from`
/// with room for `budget` more hits: each search starts where the last hit
/// ends. `None` where a hit or the next start is not on a character
/// boundary of `hay` (slicing there would panic) or the next start
/// overflows.
#[verifier::opaque]
pub open spec fn line_scan(hay: Seq<char>, query: Seq<char>, from: usize, case_sensitive: bool, budget: nat) -> Option<
    Seq<int>,
>
    decreases budget,
{
    let hb = vstd::utf8::encode_utf8(hay);
    if budget == 0 {
        Some(Seq::empty())
    } else {
        match spec_find_sub(hay, query, from, case_sensitive) {
            None => Some(Seq::empty()),
            Some(off) => {
                let next = off + search_step(query);
                if !vstd::utf8::is_char_boundary(hb, off as int) || next > usize::MAX {
                    None
                } else if budget == 1 {
                    Some(seq![off as int])
                } else if next <= hb.len() && !vstd::utf8::is_char_boundary(hb, next) {
                    None
                } else {
                    match line_scan(hay, query, next as usize, case_sensitive, (budget - 1) as nat) {
                        Some(rest) => Some(seq![off as int] + rest),
                        None => None,
                    }
                }
            },
        }
    }
}

/// `(line, byte offset)` of each hit in `lines[i..]`, with room for
/// `budget` more hits; `None` where a line's scan would panic.
#[verifier::opaque]
pub open spec fn lines_scan(lines: Seq<Seq<char>>, query: Seq<char>, case_sensitive: bool, i: int, budget: nat) -> Option<
    Seq<(int, int)>,
>
    decreases lines.len() - i,
{
    if i >= lines.len() || i < 0 || budget == 0 {
        Some(Seq::empty())
    } else {
        match line_scan(lines[i], query, 0, case_sensitive, budget) {
            None => None,
            Some(offs) => {
                let left: int = budget - offs.len();
                if left < 0 {
                    None
                } else {
                    match lines_scan(lines, query, case_sensitive, i + 1, left as nat) {
                        Some(rest) => Some(offs.map_values(|o: int| (i, o)) + rest),
                        None => None,
                    }
                }
            },
        }
    }
}

/// The hit at byte `off` of line `i`.
pub open spec fn hit_at(lines: Seq<Seq<char>>, query: Seq<char>, first: isize, i: int, off: int) -> SearchHit {
    SearchHit {
        y: (first + i) as isize,
        x: chars_before(lines[i], off) as usize,
        len: if query.len() == 0 {
            1
        } else {
            query.len() as usize
        },
    }
}

/// The hits at byte offsets `offs` of line `hay`, shown on row `y` with
/// width `len`.
pub open spec fn line_hits(offs: Seq<int>, y: isize, hay: Seq<char>, len: usize) -> Seq<SearchHit> {
    offs.map_values(|o: int| SearchHit { y, x: chars_before(hay, o) as usize, len })
}

/// The hits at the `(line, byte offset)` pairs `found`.
pub open spec fn hits_of(found: Seq<(int, int)>, lines: Seq<Seq<char>>, query: Seq<char>, first: isize) -> Seq<
    SearchHit,
> {
    found.map_values(|h: (int, int)| hit_at(lines, query, first, h.0, h.1))
}

/// The hits of `query` in `lines` (row `first` onward), in order, at most
/// [`MAX_SEARCH_HITS`]; none for an empty query. `None` where the scan
/// would slice a line off a character boundary.
pub open spec fn spec_search_hits(first: isize, lines: Seq<Seq<char>>, query: Seq<char>, case_sensitive: bool) -> Option<
    Seq<SearchHit>,
> {
    if query.len() == 0 {
        Some(Seq::empty())
    } else {
        match lines_scan(lines, query, case_sensitive, 0, MAX_SEARCH_HITS as nat) {
            Some(found) => Some(hits_of(found, lines, query, first)),
            None => None,
        }
    }
}

/// One step of [`line_scan`].
proof fn lemma_line_scan_unfold(hay: Seq<char>, query: Seq<char>, from: usize, case_sensitive: bool, budget: nat)
    requires
        budget > 0,
    ensures
        ({
            let hb = vstd::utf8::encode_utf8(hay);
            let r = line_scan(hay, query, from, case_sensitive, budget);
            match spec_find_sub(hay, query, from, case_sensitive) {
                None => r == Some(Seq::<int>::empty()),
                Some(off) => {
                    let next = off + search_step(query);
                    if !vstd::utf8::is_char_boundary(hb, off as int) || next > usize::MAX {
                        r is None
                    } else if budget == 1 {
                        r == Some(seq![off as int])
                    } else if next <= hb.len() && !vstd::utf8::is_char_boundary(hb, next) {
                        r is None
                    } else {
                        r == match line_scan(hay, query, next as usize, case_sensitive, (budget - 1) as nat) {
                            Some(rest) => Some(seq![off as int] + rest),
                            None => None,
                        }
                    }
                },
            }
        }),
{
    reveal_with_fuel(line_scan, 2);
}

/// One step of [`lines_scan`].
proof fn lemma_lines_scan_unfold(lines: Seq<Seq<char>>, query: Seq<char>, case_sensitive: bool, i: int, budget: nat)
    ensures
        i >= lines.len() || i < 0 || budget == 0 ==> lines_scan(lines, query, case_sensitive, i, budget) == Some(
            Seq::<(int, int)>::empty(),
        ),
        0 <= i < lines.len() && budget > 0 ==> lines_scan(lines, query, case_sensitive, i, budget) == match line_scan(
            lines[i],
            query,
            0,
            case_sensitive,
            budget,
        ) {
            None => None,
            Some(offs) => {
                let left: int = budget - offs.len();
                if left < 0 {
                    None
                } else {
                    match lines_scan(lines, query, case_sensitive, i + 1, left as nat) {
                        Some(rest) => Some(offs.map_values(|o: int| (i, o)) + rest),
                        None => None,
                    }
                }
            },
        },
{
    reveal_with_fuel(lines_scan, 2);
}

proof fn lemma_line_scan_len(hay: Seq<char>, query: Seq<char>, from: usize, case_sensitive: bool, budget: nat)
    ensures
        line_scan(hay, query, from, case_sensitive, budget) matches Some(offs) ==> offs.len() <= budget,
    decreases budget,
{
    if budget == 0 {
        reveal_with_fuel(line_scan, 1);
    } else {
        lemma_line_scan_unfold(hay, query, from, case_sensitive, budget);
        match spec_find_sub(hay, query, from, case_sensitive) {
            Some(off) => {
                let next = off + search_step(query);
                if next <= usize::MAX && budget > 1 {
                    lemma_line_scan_len(hay, query, next as usize, case_sensitive, (budget - 1) as nat);
                }
            },
            None => {},
        }
    }
}

/// The hits of `query` in one line, appended to `hits`; `false` where the
/// scan would slice the line off a character boundary.
fn scan_line(
    hits: &mut Vec<SearchHit>,
    hay: &str,
    query: &str,
    query_chars: usize,
    case_sensitive: bool,
    y: isize,
) -> (ok: bool)
    requires
        old(hits)@.len() < MAX_SEARCH_HITS,
        query_chars == query@.len(),
        query@.len() > 0,
    ensures
        ok <==> line_scan(hay@, query@, 0, case_sensitive, (MAX_SEARCH_HITS - old(hits)@.len()) as nat) is Some,
        ok ==> ({
            let offs = line_scan(hay@, query@, 0, case_sensitive, (MAX_SEARCH_HITS - old(hits)@.len()) as nat)->0;
            final(hits)@ == old(hits)@ + line_hits(offs, y, hay@, query_chars)
        }),
{
    let ghost budget0: nat = (MAX_SEARCH_HITS - hits@.len()) as nat;
    let ghost hits0 = hits@;
    let ghost total = line_scan(hay@, query@, 0, case_sensitive, budget0);
    let qlen = query.as_bytes().len();
    let step: usize = if qlen == 0 {
        1
    } else {
        qlen
    };
    let hlen = hay.as_bytes().len();
    let mut from: usize = 0;
    let ghost mut done: Seq<int> = Seq::empty();
    proof {
        vstd::utf8::encode_utf8_valid_utf8(hay@);
        vstd::utf8::is_char_boundary_start_end_of_seq(hay.spec_bytes());
    }
    loop
        invariant
            hlen == hay.spec_bytes().len(),
            step == search_step(query@),
            hits@.len() < MAX_SEARCH_HITS,
            hits0.len() <= hits@.len(),
            from > hlen || vstd::utf8::is_char_boundary(hay.spec_bytes(), from as int),
            total == match line_scan(hay@, query@, from, case_sensitive, (MAX_SEARCH_HITS - hits@.len()) as nat) {
                Some(r) => Some(done + r),
                None => None,
            },
            hits@ == hits0 + line_hits(done, y, hay@, query_chars),
            done.len() == hits@.len() - hits0.len(),
            total == line_scan(hay@, query@, 0, case_sensitive, budget0),
            budget0 == MAX_SEARCH_HITS - hits0.len(),
            hits0 == old(hits)@,
        decreases MAX_SEARCH_HITS - hits@.len(),
    {
        let ghost b: nat = (MAX_SEARCH_HITS - hits@.len()) as nat;
        let found = find_sub(hay, query, from, case_sensitive);
        proof {
            lemma_line_scan_unfold(hay@, query@, from, case_sensitive, b);
        }
        match found {
            None => {
                assert(done + Seq::<int>::empty() =~= done);
                return true;
            },
            Some(off) => {
                if !hay.is_char_boundary(off) {
                    return false;
                }
                let (pre, _) = hay.split_at(off);
                proof {
                    vstd::utf8::encode_utf8_decode_utf8(pre@);
                    assert(pre.spec_bytes() =~= hay.spec_bytes().take(off as int));
                }
                let x = chars_of(pre).len();
                let hit = SearchHit { y, x, len: query_chars };
                proof {
                    assert(line_hits(done.push(off as int), y, hay@, query_chars) =~= line_hits(
                        done,
                        y,
                        hay@,
                        query_chars,
                    ).push(hit));
                }
                hits.push(hit);
                if off > usize::MAX - step {
                    return false;
                }
                let next = off + step;
                if hits.len() >= MAX_SEARCH_HITS {
                    proof {
                        assert(b == 1);
                        assert(done + seq![off as int] =~= done.push(off as int));
                    }
                    return true;
                }
                if !(next > hlen || hay.is_char_boundary(next)) {
                    return false;
                }
                proof {
                    assert(done + (seq![off as int] + line_scan(hay@, query@, next, case_sensitive, (b - 1) as nat)->0)
                        =~= done.push(off as int) + line_scan(hay@, query@, next, case_sensitive, (b - 1) as nat)->0);
                    done = done.push(off as int);
                }
                from = next;
            },
        }
    }
}

/// Runs the search; `None` where a line's scan would slice it off a
/// character boundary.
fn scan_lines(first: isize, lines: &[String], query: &str, case_sensitive: bool) -> (r: Option<Vec<SearchHit>>)
    requires
        lines@.len() <= isize::MAX,
        lines@.len() == 0 || first + lines@.len() - 1 <= isize::MAX,
    ensures
        r matches Some(v) ==> spec_search_hits(first, views(lines@), query@, case_sensitive) == Some(v@),
        r is None ==> spec_search_hits(first, views(lines@), query@, case_sensitive) is None,
{
    let ghost ls = views(lines@);
    if query.is_empty() {
        return Some(Vec::new());
    }
    let qc = chars_of(query).len();
    let mut hits: Vec<SearchHit> = Vec::new();
    let ghost total = lines_scan(ls, query@, case_sensitive, 0, MAX_SEARCH_HITS as nat);
    let ghost mut done: Seq<(int, int)> = Seq::empty();
    let mut i: usize = 0;
    while i < lines.len()
        invariant
            ls == views(lines@),
            qc == query@.len(),
            query@.len() > 0,
            lines@.len() <= isize::MAX,
            lines@.len() == 0 || first + lines@.len() - 1 <= isize::MAX,
            0 <= i <= lines@.len(),
            hits@.len() < MAX_SEARCH_HITS,
            total == match lines_scan(ls, query@, case_sensitive, i as int, (MAX_SEARCH_HITS - hits@.len()) as nat) {
                Some(r) => Some(done + r),
                None => None,
            },
            total == lines_scan(ls, query@, case_sensitive, 0, MAX_SEARCH_HITS as nat),
            hits@ == hits_of(done, ls, query@, first),
        decreases lines@.len() - i,
    {
        let ghost before = hits@;
        let ghost b: nat = (MAX_SEARCH_HITS - hits@.len()) as nat;
        let y = first + i as isize;
        proof {
            lemma_lines_scan_unfold(ls, query@, case_sensitive, i as int, b);
        }
        let ok = scan_line(&mut hits, lines[i].as_str(), query, qc, case_sensitive, y);
        if !ok {
            return None;
        }
        let ghost offs = line_scan(ls[i as int], query@, 0, case_sensitive, b)->0;
        proof {
            assert(ls[i as int] == lines@[i as int]@);
            lemma_line_scan_len(ls[i as int], query@, 0, case_sensitive, b);
            let fresh = offs.map_values(|o: int| (i as int, o));
            assert(hits@ =~= hits_of(done + fresh, ls, query@, first)) by {
                assert forall|k: int| 0 <= k < hits@.len() implies hits@[k] == hits_of(done + fresh, ls, query@, first)[k] by {
                    if k >= before.len() {
                        let o = offs[k - before.len()];
                        assert(hits@[k] == SearchHit { y, x: chars_before(ls[i as int], o) as usize, len: qc });
                        assert(fresh[k - before.len()] == (i as int, o));
                    }
                }
            }
            assert(done + (fresh + lines_scan(ls, query@, case_sensitive, i + 1, (b - offs.len()) as nat)->0)
                =~= (done + fresh) + lines_scan(ls, query@, case_sensitive, i + 1, (b - offs.len()) as nat)->0);
            done = done + fresh;
        }
        if hits.len() >= MAX_SEARCH_HITS {
            proof {
                lemma_lines_scan_unfold(ls, query@, case_sensitive, i + 1, 0);
                assert(done + Seq::<(int, int)>::empty() =~= done);
            }
            return Some(hits);
        }
        i += 1;
    }
    proof {
        lemma_lines_scan_unfold(ls, query@, case_sensitive, i as int, (MAX_SEARCH_HITS - hits@.len()) as nat);
        assert(done + Seq::<(int, int)>::empty() =~= done);
    }
    Some(hits)
}

/// The hits of `query` in `lines`, rows numbered from `first`: for each
/// line in order, each occurrence from where the last one ended, at most
/// [`MAX_SEARCH_HITS`] in all; none for an empty query.
pub fn find_in_lines(first: isize, lines: &[String], query: &str, case_sensitive: bool) -> (r: Vec<SearchHit>)
    requires
        lines@.len() <= isize::MAX,
        lines@.len() == 0 || first + lines@.len() - 1 <= isize::MAX,
        spec_search_hits(first, views(lines@), query@, case_sensitive) is Some,
    ensures
        spec_search_hits(first, views(lines@), query@, case_sensitive) == Some(r@),
{
    match scan_lines(first, lines, query, case_sensitive) {
        Some(v) => v,
        None => Vec::new(),
    }
}

/// [`find_in_lines`] where the search is safe to run; `None` where a
/// line's scan would slice it off a character boundary.
pub fn try_find_in_lines(first: isize, lines: &[String], query: &str, case_sensitive: bool) -> (r: Option<
    Vec<SearchHit>,
>)
    requires
        lines@.len() <= isize::MAX,
        lines@.len() == 0 || first + lines@.len() - 1 <= isize::MAX,
    ensures
        r matches Some(v) ==> spec_search_hits(first, views(lines@), query@, case_sensitive) == Some(v@),
        r is None ==> spec_search_hits(first, views(lines@), query@, case_sensitive) is None,
{
    match scan_lines(first, lines, query, case_sensitive) {
        Some(_) => Some(find_in_lines(first, lines, query, case_sensitive)),
        None => None,
    }
}

proof fn lemma_lines_scan_len(lines: Seq<Seq<char>>, query: Seq<char>, case_sensitive: bool, i: int, budget: nat)
    ensures
        lines_scan(lines, query, case_sensitive, i, budget) matches Some(found) ==> found.len() <= budget,
    decreases lines.len() - i,
{
    lemma_lines_scan_unfold(lines, query, case_sensitive, i, budget);
    if 0 <= i < lines.len() && budget > 0 {
        lemma_line_scan_len(lines[i], query, 0, case_sensitive, budget);
        match line_scan(lines[i], query, 0, case_sensitive, budget) {
            Some(offs) => {
                lemma_lines_scan_len(lines, query, case_sensitive, i + 1, (budget - offs.len()) as nat);
            },
            None => {},
        }
    }
}

/// A search reports at most [`MAX_SEARCH_HITS`] hits.
pub proof fn lemma_search_hits_bounded(first: isize, lines: Seq<Seq<char>>, query: Seq<char>, case_sensitive: bool)
    ensures
        spec_search_hits(first, lines, query, case_sensitive) matches Some(h) ==> h.len() <= MAX_SEARCH_HITS,
{
    lemma_lines_scan_len(lines, query, case_sensitive, 0, MAX_SEARCH_HITS as nat);
}

} // verus!
