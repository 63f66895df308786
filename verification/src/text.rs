//! Small string helpers shared by the modules of this crate.

use vstd::prelude::*;

verus! {

/// Whether two string slices hold the same characters.
pub(crate) fn str_eq(a: &str, b: &str) -> (r: bool)
    ensures
        r == (a@ == b@),
{
    let ac = chars_of(a);
    let bc = chars_of(b);
    if ac.len() != bc.len() {
        return false;
    }
    let mut i: usize = 0;
    while i < ac.len()
        invariant
            ac@ == a@,
            bc@ == b@,
            ac@.len() == bc@.len(),
            0 <= i <= ac@.len(),
            forall|j: int| 0 <= j < i ==> ac@[j] == bc@[j],
        decreases ac@.len() - i,
    {
        if ac[i] != bc[i] {
            return false;
        }
        i += 1;
    }
    assert(a@ =~= b@);
    true
}

} // verus!

verus! {

/// Appends `c` (`String::push`).
#[verifier::external_body]
pub(crate) fn push_char(s: &mut String, c: char)
    ensures
        final(s)@ == old(s)@.push(c),
{
    s.push(c);
}

/// The characters of `s`, in order.
pub fn chars_of(s: &str) -> (r: Vec<char>)
    ensures
        r@ == s@,
{
    let mut out: Vec<char> = Vec::new();
    for c in it: s.chars()
        invariant
            out@ == it.seq().take(it.index() as int),
            it.seq() == s@,
    {
        out.push(c);
    }
    out
}

} // verus!

verus! {

/// The decimal digit for `d < 10`.
pub open spec fn digit_char(d: nat) -> char {
    if d == 0 {
        '0'
    } else if d == 1 {
        '1'
    } else if d == 2 {
        '2'
    } else if d == 3 {
        '3'
    } else if d == 4 {
        '4'
    } else if d == 5 {
        '5'
    } else if d == 6 {
        '6'
    } else if d == 7 {
        '7'
    } else if d == 8 {
        '8'
    } else {
        '9'
    }
}

/// Decimal notation of `n`, without leading zeros.
pub open spec fn decimal(n: nat) -> Seq<char>
    decreases n,
{
    if n < 10 {
        seq![digit_char(n)]
    } else {
        decimal(n / 10).push(digit_char(n % 10))
    }
}

fn digit_of(d: usize) -> (c: char)
    requires
        d < 10,
    ensures
        c == digit_char(d as nat),
{
    if d == 0 {
        '0'
    } else if d == 1 {
        '1'
    } else if d == 2 {
        '2'
    } else if d == 3 {
        '3'
    } else if d == 4 {
        '4'
    } else if d == 5 {
        '5'
    } else if d == 6 {
        '6'
    } else if d == 7 {
        '7'
    } else if d == 8 {
        '8'
    } else {
        '9'
    }
}

/// Appends the decimal notation of `n` to `out`.
pub fn push_decimal(out: &mut String, n: usize)
    ensures
        final(out)@ == old(out)@ + decimal(n as nat),
    decreases n,
{
    if n >= 10 {
        push_decimal(out, n / 10);
    }
    push_char(out, digit_of(n % 10));
    proof {
        if n < 10 {
            assert(n % 10 == n);
        }
        assert(final(out)@ =~= old(out)@ + decimal(n as nat));
    }
}

/// Appends `t` to `out` (`String::push_str`).
pub fn push_str(out: &mut String, t: &str)
    ensures
        final(out)@ == old(out)@ + t@,
{
    out.append(t);
}

} // verus!

verus! {

/// `s` with `p` taken off its front, when `s` starts with `p`.
pub open spec fn spec_strip_prefix(s: Seq<char>, p: Seq<char>) -> Option<Seq<char>> {
    if p.len() <= s.len() && s.subrange(0, p.len() as int) == p {
        Some(s.subrange(p.len() as int, s.len() as int))
    } else {
        None
    }
}

/// `str::strip_prefix` with a string pattern.
pub fn strip_prefix<'a>(s: &'a str, p: &str) -> (r: Option<&'a str>)
    ensures
        r matches Some(t) ==> spec_strip_prefix(s@, p@) == Some(t@),
        r is None ==> spec_strip_prefix(s@, p@) is None,
{
    let sc = chars_of(s);
    let pc = chars_of(p);
    if pc.len() > sc.len() {
        return None;
    }
    let mut i: usize = 0;
    while i < pc.len()
        invariant
            sc@ == s@,
            pc@ == p@,
            pc@.len() <= sc@.len(),
            0 <= i <= pc@.len(),
            forall|j: int| 0 <= j < i ==> sc@[j] == pc@[j],
        decreases pc@.len() - i,
    {
        if sc[i] != pc[i] {
            assert(s@.subrange(0, p@.len() as int)[i as int] != p@[i as int]);
            return None;
        }
        i += 1;
    }
    assert(s@.subrange(0, p@.len() as int) =~= p@);
    Some(s.substring_char(pc.len(), sc.len()))
}

/// An ASCII decimal digit.
pub open spec fn is_digit(c: char) -> bool {
    '0' <= c <= '9'
}

pub open spec fn all_digits(s: Seq<char>) -> bool {
    forall|i: int| 0 <= i < s.len() ==> is_digit(#[trigger] s[i])
}

/// The number that the ASCII digits `s` write in decimal.
pub open spec fn decimal_value(s: Seq<char>) -> int
    decreases s.len(),
{
    if s.len() == 0 {
        0
    } else {
        decimal_value(s.drop_last()) * 10 + (s.last() as int - '0' as int)
    }
}

/// The integer that `FromStr` reads from `s` for a signed type, before the
/// range check: an optional `+` or `-`, then one or more ASCII digits.
pub open spec fn signed_literal(s: Seq<char>) -> Option<int> {
    if s.len() > 0 && (s[0] == '-' || s[0] == '+') {
        let body = s.drop_first();
        if body.len() > 0 && all_digits(body) {
            Some(
                if s[0] == '-' {
                    -decimal_value(body)
                } else {
                    decimal_value(body)
                },
            )
        } else {
            None
        }
    } else if s.len() > 0 && all_digits(s) {
        Some(decimal_value(s))
    } else {
        None
    }
}

/// The integer that `FromStr` reads from `s` for an unsigned type: an
/// optional `+`, then one or more ASCII digits.
pub open spec fn unsigned_literal(s: Seq<char>) -> Option<int> {
    if s.len() > 0 && s[0] == '-' {
        None
    } else {
        signed_literal(s)
    }
}

/// `s.parse::<isize>()`, successful exactly when the literal is in range.
pub open spec fn spec_parse_isize(s: Seq<char>) -> Option<isize> {
    match signed_literal(s) {
        Some(v) => if isize::MIN <= v <= isize::MAX {
            Some(v as isize)
        } else {
            None
        },
        None => None,
    }
}

/// `s.parse::<usize>()`, successful exactly when the literal is in range.
pub open spec fn spec_parse_usize(s: Seq<char>) -> Option<usize> {
    match unsigned_literal(s) {
        Some(v) => if v <= usize::MAX {
            Some(v as usize)
        } else {
            None
        },
        None => None,
    }
}

proof fn lemma_decimal_nonneg(s: Seq<char>)
    requires
        all_digits(s),
    ensures
        decimal_value(s) >= 0,
    decreases s.len(),
{
    if s.len() > 0 {
        assert(all_digits(s.drop_last())) by {
            assert forall|i: int| 0 <= i < s.drop_last().len() implies is_digit(
                #[trigger] s.drop_last()[i],
            ) by {
                assert(s.drop_last()[i] == s[i]);
            }
        }
        lemma_decimal_nonneg(s.drop_last());
        assert(is_digit(s[s.len() - 1]));
    }
}

proof fn lemma_decimal_step(s: Seq<char>, k: int)
    requires
        all_digits(s),
        0 <= k < s.len(),
    ensures
        decimal_value(s.take(k + 1)) == decimal_value(s.take(k)) * 10 + (s[k] as int - '0' as int),
        decimal_value(s.take(k)) <= decimal_value(s.take(k + 1)),
{
    assert(s.take(k + 1).drop_last() =~= s.take(k));
    assert(all_digits(s.take(k))) by {
        assert forall|i: int| 0 <= i < s.take(k).len() implies is_digit(#[trigger] s.take(k)[i]) by {
            assert(s.take(k)[i] == s[i]);
        }
    }
    lemma_decimal_nonneg(s.take(k));
    assert(is_digit(s[k]));
}

proof fn lemma_decimal_mono(s: Seq<char>, j: int, k: int)
    requires
        all_digits(s),
        0 <= j <= k <= s.len(),
    ensures
        decimal_value(s.take(j)) <= decimal_value(s.take(k)),
    decreases k - j,
{
    if j < k {
        lemma_decimal_step(s, k - 1);
        lemma_decimal_mono(s, j, k - 1);
    }
}

/// Reads the digits `cs[start..]`: `None` if one of them is not an ASCII
/// digit; `Some(None)` if their value exceeds `limit`; else that value.
fn digits_value(cs: &Vec<char>, start: usize, limit: usize) -> (r: Option<Option<usize>>)
    requires
        start <= cs@.len(),
    ensures
        r is None <==> !all_digits(cs@.subrange(start as int, cs@.len() as int)),
        r matches Some(Some(v)) ==> v == decimal_value(cs@.subrange(start as int, cs@.len() as int)),
        r matches Some(None) ==> decimal_value(cs@.subrange(start as int, cs@.len() as int)) > limit,
        r matches Some(Some(v)) ==> v <= limit,
{
    let ghost body = cs@.subrange(start as int, cs@.len() as int);
    let n = cs.len();
    let mut i: usize = start;
    let mut acc: usize = 0;
    let mut over = false;
    while i < n
        invariant
            n == cs@.len(),
            body == cs@.subrange(start as int, n as int),
            start <= i <= n,
            all_digits(body.take(i - start)),
            !over ==> acc == decimal_value(body.take(i - start)) && acc <= limit,
            over ==> decimal_value(body.take(i - start)) > limit,
        decreases n - i,
    {
        let c = cs[i];
        if !('0' <= c && c <= '9') {
            assert(body[i - start] == c);
            return None;
        }
        let ghost k = i - start;
        proof {
            assert(all_digits(body.take(k + 1))) by {
                assert forall|t: int| 0 <= t < body.take(k + 1).len() implies is_digit(
                    #[trigger] body.take(k + 1)[t],
                ) by {
                    if t < k {
                        assert(body.take(k + 1)[t] == body.take(k)[t]);
                    } else {
                        assert(body.take(k + 1)[t] == c);
                    }
                }
            }
            lemma_decimal_step(body.take(k + 1), k);
            assert(body.take(k + 1).take(k) =~= body.take(k));
            assert(body.take(k + 1).take(k + 1) =~= body.take(k + 1));
            assert(body.take(k + 1)[k] == c);
        }
        if !over {
            let d = (c as u32 - '0' as u32) as usize;
            match acc.checked_mul(10) {
                Some(m) => match m.checked_add(d) {
                    Some(v) => {
                        if v <= limit {
                            acc = v;
                        } else {
                            over = true;
                        }
                    },
                    None => {
                        over = true;
                    },
                },
                None => {
                    over = true;
                },
            }
        } else {
            proof {
                lemma_decimal_nonneg(body.take(k));
                assert(decimal_value(body.take(k + 1)) >= decimal_value(body.take(k)) * 10);
            }
        }
        i += 1;
    }
    assert(body.take(n - start) =~= body);
    if over {
        Some(None)
    } else {
        Some(Some(acc))
    }
}

/// `s.parse::<isize>().ok()`.
pub fn parse_isize(s: &str) -> (r: Option<isize>)
    ensures
        r == spec_parse_isize(s@),
{
    let cs = chars_of(s);
    if cs.len() == 0 {
        return None;
    }
    let neg = cs[0] == '-';
    let signed = neg || cs[0] == '+';
    let start: usize = if signed {
        1
    } else {
        0
    };
    if start == cs.len() {
        return None;
    }
    let limit: usize = if neg {
        (isize::MAX as usize) + 1
    } else {
        isize::MAX as usize
    };
    proof {
        assert(cs@.subrange(1, cs@.len() as int) =~= s@.drop_first());
        assert(cs@.subrange(0, cs@.len() as int) =~= s@);
    }
    match digits_value(&cs, start, limit) {
        None => None,
        Some(None) => None,
        Some(Some(v)) => {
            if neg {
                if v == limit {
                    Some(isize::MIN)
                } else {
                    Some(-(v as isize))
                }
            } else {
                Some(v as isize)
            }
        },
    }
}

/// `s.parse::<usize>().ok()`.
pub fn parse_usize(s: &str) -> (r: Option<usize>)
    ensures
        r == spec_parse_usize(s@),
{
    let cs = chars_of(s);
    if cs.len() == 0 || cs[0] == '-' {
        return None;
    }
    let start: usize = if cs[0] == '+' {
        1
    } else {
        0
    };
    if start == cs.len() {
        return None;
    }
    proof {
        assert(cs@.subrange(1, cs@.len() as int) =~= s@.drop_first());
        assert(cs@.subrange(0, cs@.len() as int) =~= s@);
    }
    match digits_value(&cs, start, usize::MAX) {
        None => None,
        Some(None) => None,
        Some(Some(v)) => Some(v),
    }
}

} // verus!

verus! {

/// `s.parse::<u8>().ok()`.
pub open spec fn spec_parse_u8(s: Seq<char>) -> Option<u8> {
    match unsigned_literal(s) {
        Some(v) => if v <= u8::MAX {
            Some(v as u8)
        } else {
            None
        },
        None => None,
    }
}

/// `s.parse::<u8>().ok()`.
pub fn parse_u8(s: &str) -> (r: Option<u8>)
    ensures
        r == spec_parse_u8(s@),
{
    let cs = chars_of(s);
    if cs.len() == 0 || cs[0] == '-' {
        return None;
    }
    let start: usize = if cs[0] == '+' {
        1
    } else {
        0
    };
    if start == cs.len() {
        return None;
    }
    proof {
        assert(cs@.subrange(1, cs@.len() as int) =~= s@.drop_first());
        assert(cs@.subrange(0, cs@.len() as int) =~= s@);
    }
    match digits_value(&cs, start, 255) {
        None => None,
        Some(None) => None,
        Some(Some(v)) => Some(v as u8),
    }
}

/// Unicode general category Cc: the C0 controls, DEL and the C1 controls
/// (`char::is_control`).
pub open spec fn is_control_char(c: char) -> bool {
    (c as u32) <= 0x1f || (0x7f <= (c as u32) && (c as u32) <= 0x9f)
}

/// `char::is_control`.
pub fn is_control(c: char) -> (r: bool)
    ensures
        r == is_control_char(c),
{
    let u = c as u32;
    u <= 0x1f || (0x7f <= u && u <= 0x9f)
}

/// `char::to_ascii_lowercase`: `A`..=`Z` become `a`..=`z`, the rest stay.
pub open spec fn ascii_lower(c: char) -> char {
    if 'A' <= c <= 'Z' {
        ((c as u32) + 32) as char
    } else {
        c
    }
}

/// `char::to_ascii_lowercase`.
pub fn to_ascii_lower(c: char) -> (r: char)
    ensures
        r == ascii_lower(c),
{
    if 'A' <= c && c <= 'Z' {
        let b = (c as u8) + 32;
        b as char
    } else {
        c
    }
}

/// `char::is_ascii_alphanumeric`.
pub open spec fn is_ascii_alnum(c: char) -> bool {
    ('0' <= c <= '9') || ('a' <= c <= 'z') || ('A' <= c <= 'Z')
}

} // verus!

verus! {

proof fn lemma_digit_char(d: nat)
    requires
        d < 10,
    ensures
        is_digit(digit_char(d)),
        digit_char(d) as int - '0' as int == d,
{
}

/// Decimal notation is all digits and reads back as the number.
pub proof fn lemma_decimal_value(n: nat)
    ensures
        all_digits(decimal(n)),
        decimal_value(decimal(n)) == n,
        decimal(n).len() > 0,
        is_digit(decimal(n)[0]),
    decreases n,
{
    if n < 10 {
        lemma_digit_char(n);
        assert(decimal(n).drop_last() =~= Seq::<char>::empty());
        assert(decimal(n).last() == digit_char(n));
        assert(decimal_value(Seq::<char>::empty()) == 0);
    } else {
        lemma_decimal_value(n / 10);
        lemma_digit_char(n % 10);
        let d = decimal(n);
        assert(d.drop_last() =~= decimal(n / 10));
        assert(d.last() == digit_char(n % 10));
        assert((n / 10) * 10 + n % 10 == n) by (nonlinear_arith);
        assert(d[0] == decimal(n / 10)[0]);
        assert forall|i: int| 0 <= i < d.len() implies is_digit(#[trigger] d[i]) by {
            if i < d.len() - 1 {
                assert(d[i] == decimal(n / 10)[i]);
            }
        }
    }
}

/// Parsing the decimal notation of a `usize` gives it back.
pub proof fn lemma_parse_usize_decimal(n: usize)
    ensures
        spec_parse_usize(decimal(n as nat)) == Some(n),
{
    lemma_decimal_value(n as nat);
}

/// Parsing the decimal notation of a non-negative `isize` gives it back.
pub proof fn lemma_parse_isize_decimal(n: isize)
    requires
        n >= 0,
    ensures
        spec_parse_isize(decimal(n as nat)) == Some(n),
{
    lemma_decimal_value(n as nat);
}

/// A sequence that differs from `p` at one of `p`'s positions does not
/// start with `p`.
pub proof fn lemma_not_prefix(s: Seq<char>, p: Seq<char>, k: int)
    requires
        0 <= k < p.len(),
        k < s.len(),
        s[k] != p[k],
    ensures
        spec_strip_prefix(s, p) is None,
{
    if p.len() <= s.len() {
        assert(s.subrange(0, p.len() as int)[k] != p[k]);
    }
}

/// `p` followed by `rest` starts with `p`, and `rest` follows it.
pub proof fn lemma_is_prefix(p: Seq<char>, rest: Seq<char>)
    ensures
        spec_strip_prefix(p + rest, p) == Some(rest),
{
    assert((p + rest).subrange(0, p.len() as int) =~= p);
    assert((p + rest).subrange(p.len() as int, (p + rest).len() as int) =~= rest);
}

} // verus!
