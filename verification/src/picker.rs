//! Rows of the searchable picker: the character-select list, and the
//! filter that keeps the rows matching a query.

use vstd::prelude::*;

use crate::find::{find_bytes, first_match, lowercase, lowercase_str};
use crate::text::{push_char, push_str};

verus! {

/// A picker row: what choosing it does, its title and a second line.
#[derive(Debug, PartialEq, Eq)]
pub struct PickerItem {
    pub id: String,
    pub title: String,
    pub subtitle: String,
}

pub open spec fn item_view(i: PickerItem) -> (Seq<char>, Seq<char>, Seq<char>) {
    (i.id@, i.title@, i.subtitle@)
}

pub open spec fn item_views(v: Seq<PickerItem>) -> Seq<(Seq<char>, Seq<char>, Seq<char>)> {
    v.map_values(|i: PickerItem| item_view(i))
}

/// The upper-case hexadecimal digit for `d < 16`.
pub open spec fn hex_char(d: nat) -> char {
    if d < 10 {
        ((d + 0x30) as u32) as char
    } else {
        ((d - 10 + 0x41) as u32) as char
    }
}

/// `n` in upper-case hexadecimal, without leading zeros.
pub open spec fn hex(n: nat) -> Seq<char>
    decreases n,
{
    if n < 16 {
        seq![hex_char(n)]
    } else {
        hex(n / 16).push(hex_char(n % 16))
    }
}

/// `n` as `{:04X}` writes it: upper-case hexadecimal, zero-padded to four
/// digits.
pub open spec fn hex4(n: nat) -> Seq<char> {
    let h = hex(n);
    if h.len() < 4 {
        Seq::new((4 - h.len()) as nat, |i: int| '0') + h
    } else {
        h
    }
}

fn hex_digit(d: u32) -> (c: char)
    requires
        d < 16,
    ensures
        c == hex_char(d as nat),
{
    if d == 0 { '0' } else if d == 1 { '1' } else if d == 2 { '2' } else if d == 3 { '3' }
    else if d == 4 { '4' } else if d == 5 { '5' } else if d == 6 { '6' } else if d == 7 { '7' }
    else if d == 8 { '8' } else if d == 9 { '9' } else if d == 10 { 'A' } else if d == 11 { 'B' }
    else if d == 12 { 'C' } else if d == 13 { 'D' } else if d == 14 { 'E' } else { 'F' }
}

fn hex_chars(n: u32) -> (r: Vec<char>)
    ensures
        r@ == hex(n as nat),
    decreases n,
{
    if n < 16 {
        let mut v: Vec<char> = Vec::new();
        v.push(hex_digit(n));
        v
    } else {
        let mut v = hex_chars(n / 16);
        v.push(hex_digit(n % 16));
        v
    }
}

proof fn lemma_hex_len_pos(n: nat)
    ensures
        hex(n).len() >= 1,
    decreases n,
{
    if n >= 16 {
        lemma_hex_len_pos(n / 16);
    }
}

/// Appends `n` as `{:04X}` writes it.
pub fn push_hex4(out: &mut String, n: u32)
    ensures
        final(out)@ == old(out)@ + hex4(n as nat),
{
    let digits = hex_chars(n);
    let ghost start = out@;
    let mut pad: usize = 0;
    let need: usize = if digits.len() < 4 {
        4 - digits.len()
    } else {
        0
    };
    while pad < need
        invariant
            0 <= pad <= need,
            out@ == start + Seq::new(pad as nat, |i: int| '0'),
        decreases need - pad,
    {
        push_char(out, '0');
        pad += 1;
        assert(out@ =~= start + Seq::new(pad as nat, |i: int| '0'));
    }
    let ghost padded = out@;
    let mut k: usize = 0;
    while k < digits.len()
        invariant
            0 <= k <= digits@.len(),
            out@ == padded + digits@.take(k as int),
        decreases digits@.len() - k,
    {
        push_char(out, digits[k]);
        k += 1;
        assert(out@ =~= padded + digits@.take(k as int));
    }
    proof {
        assert(digits@.take(digits@.len() as int) =~= digits@);
        if digits@.len() >= 4 {
            assert(Seq::new(0, |i: int| '0') + digits@ =~= digits@);
            assert(start + Seq::new(0, |i: int| '0') =~= start);
        }
        assert(out@ =~= start + hex4(n as nat));
    }
}

/// `char::from_u32`: the character with code `u`, or `None` for a
/// surrogate or a code past U+10FFFF.
#[verifier::external_body]
fn char_from_u32(u: u32) -> (r: Option<char>)
    ensures
        r == (if u <= 0xD7FF || (0xE000 <= u && u <= 0x10FFFF) {
            Some(u as char)
        } else {
            None
        }),
{
    char::from_u32(u)
}

/// The named characters offered first, with their names.
pub open spec fn named_chars() -> Seq<(Seq<char>, char)> {
    seq![
        ("Space"@, ' '),
        ("No-break space"@, '\u{00A0}'),
        ("Em dash"@, '\u{2014}'),
        ("En dash"@, '\u{2013}'),
        ("Ellipsis"@, '\u{2026}'),
        ("Left arrow"@, '\u{2190}'),
        ("Up arrow"@, '\u{2191}'),
        ("Right arrow"@, '\u{2192}'),
        ("Down arrow"@, '\u{2193}'),
        ("Left-right arrow"@, '\u{2194}'),
        ("Up-down arrow"@, '\u{2195}'),
        ("Check mark"@, '\u{2713}'),
        ("Ballot X"@, '\u{2717}'),
        ("Star"@, '\u{2605}'),
        ("Heart"@, '\u{2665}'),
        ("Diamond"@, '\u{2666}'),
        ("Club"@, '\u{2663}'),
        ("Spade"@, '\u{2660}'),
        ("Degree"@, '\u{00B0}'),
        ("Plus-minus"@, '\u{00B1}'),
        ("Multiply"@, '\u{00D7}'),
        ("Divide"@, '\u{00F7}'),
        ("Not equal"@, '\u{2260}'),
        ("Less-or-equal"@, '\u{2264}'),
        ("Greater-or-equal"@, '\u{2265}'),
        ("Infinity"@, '\u{221E}'),
        ("Pi"@, '\u{03C0}'),
        ("Micro"@, '\u{00B5}'),
        ("Section"@, '\u{00A7}'),
        ("Copyright"@, '\u{00A9}'),
        ("Registered"@, '\u{00AE}'),
        ("Trademark"@, '\u{2122}'),
        ("Bullet"@, '\u{2022}'),
        ("Middle dot"@, '\u{00B7}'),
        ("Euro"@, '\u{20AC}'),
        ("Pound"@, '\u{00A3}'),
        ("Yen"@, '\u{00A5}'),
        ("Smiling face"@, '\u{263A}'),
        ("Black smiling face"@, '\u{263B}'),
        ("Sun"@, '\u{2600}'),
        ("Cloud"@, '\u{2601}'),
        ("Umbrella"@, '\u{2602}'),
        ("Snowman"@, '\u{2603}'),
        ("Comet"@, '\u{2604}'),
        ("Hot beverage"@, '\u{2615}'),
        ("Shamrock"@, '\u{2618}'),
        ("Pointing index"@, '\u{261E}'),
        ("Peace"@, '\u{262E}'),
        ("Yin yang"@, '\u{262F}'),
        ("Smile emoji"@, '\u{1F600}'),
        ("Grin emoji"@, '\u{1F601}'),
        ("Joy emoji"@, '\u{1F602}'),
        ("Heart eyes"@, '\u{1F60D}'),
        ("Thumbs up"@, '\u{1F44D}'),
        ("Fire"@, '\u{1F525}'),
        ("Rocket"@, '\u{1F680}'),
        ("Check emoji"@, '\u{2705}'),
        ("Cross mark emoji"@, '\u{274C}'),
        ("Warning"@, '\u{26A0}'),
        ("Light bulb"@, '\u{1F4A1}'),
        ("Folder"@, '\u{1F4C1}'),
        ("Memo"@, '\u{1F4DD}'),
        ("Laptop"@, '\u{1F4BB}'),
        ("Terminal emoji"@, '\u{1F5A5}'),
    ]
}

fn named_char_table() -> (r: Vec<(&'static str, char)>)
    ensures
        r@.map_values(|p: (&str, char)| (p.0@, p.1)) == named_chars(),
{
    let mut v: Vec<(&'static str, char)> = Vec::new();
    v.push(("Space", ' '));
    v.push(("No-break space", '\u{00A0}'));
    v.push(("Em dash", '\u{2014}'));
    v.push(("En dash", '\u{2013}'));
    v.push(("Ellipsis", '\u{2026}'));
    v.push(("Left arrow", '\u{2190}'));
    v.push(("Up arrow", '\u{2191}'));
    v.push(("Right arrow", '\u{2192}'));
    v.push(("Down arrow", '\u{2193}'));
    v.push(("Left-right arrow", '\u{2194}'));
    v.push(("Up-down arrow", '\u{2195}'));
    v.push(("Check mark", '\u{2713}'));
    v.push(("Ballot X", '\u{2717}'));
    v.push(("Star", '\u{2605}'));
    v.push(("Heart", '\u{2665}'));
    v.push(("Diamond", '\u{2666}'));
    v.push(("Club", '\u{2663}'));
    v.push(("Spade", '\u{2660}'));
    v.push(("Degree", '\u{00B0}'));
    v.push(("Plus-minus", '\u{00B1}'));
    v.push(("Multiply", '\u{00D7}'));
    v.push(("Divide", '\u{00F7}'));
    v.push(("Not equal", '\u{2260}'));
    v.push(("Less-or-equal", '\u{2264}'));
    v.push(("Greater-or-equal", '\u{2265}'));
    v.push(("Infinity", '\u{221E}'));
    v.push(("Pi", '\u{03C0}'));
    v.push(("Micro", '\u{00B5}'));
    v.push(("Section", '\u{00A7}'));
    v.push(("Copyright", '\u{00A9}'));
    v.push(("Registered", '\u{00AE}'));
    v.push(("Trademark", '\u{2122}'));
    v.push(("Bullet", '\u{2022}'));
    v.push(("Middle dot", '\u{00B7}'));
    v.push(("Euro", '\u{20AC}'));
    v.push(("Pound", '\u{00A3}'));
    v.push(("Yen", '\u{00A5}'));
    v.push(("Smiling face", '\u{263A}'));
    v.push(("Black smiling face", '\u{263B}'));
    v.push(("Sun", '\u{2600}'));
    v.push(("Cloud", '\u{2601}'));
    v.push(("Umbrella", '\u{2602}'));
    v.push(("Snowman", '\u{2603}'));
    v.push(("Comet", '\u{2604}'));
    v.push(("Hot beverage", '\u{2615}'));
    v.push(("Shamrock", '\u{2618}'));
    v.push(("Pointing index", '\u{261E}'));
    v.push(("Peace", '\u{262E}'));
    v.push(("Yin yang", '\u{262F}'));
    v.push(("Smile emoji", '\u{1F600}'));
    v.push(("Grin emoji", '\u{1F601}'));
    v.push(("Joy emoji", '\u{1F602}'));
    v.push(("Heart eyes", '\u{1F60D}'));
    v.push(("Thumbs up", '\u{1F44D}'));
    v.push(("Fire", '\u{1F525}'));
    v.push(("Rocket", '\u{1F680}'));
    v.push(("Check emoji", '\u{2705}'));
    v.push(("Cross mark emoji", '\u{274C}'));
    v.push(("Warning", '\u{26A0}'));
    v.push(("Light bulb", '\u{1F4A1}'));
    v.push(("Folder", '\u{1F4C1}'));
    v.push(("Memo", '\u{1F4DD}'));
    v.push(("Laptop", '\u{1F4BB}'));
    v.push(("Terminal emoji", '\u{1F5A5}'));
    assert(v@.map_values(|p: (&str, char)| (p.0@, p.1)) =~= named_chars());
    v
}

/// The row for a named character: `char:<c>`, `<c>  <name>`, and `U+` with
/// its code in four or more hexadecimal digits.
pub open spec fn named_char_item(name: Seq<char>, c: char) -> (Seq<char>, Seq<char>, Seq<char>) {
    ("char:"@.push(c), seq![c] + "  "@ + name, "U+"@ + hex4(c as nat))
}

/// The row for box-drawing or block code point `cp`.
pub open spec fn block_char_item(cp: nat) -> (Seq<char>, Seq<char>, Seq<char>) {
    let c = (cp as u32) as char;
    ("char:"@.push(c), seq![c] + "  U+"@ + hex4(cp), "Box drawing / block"@)
}

/// The character-select rows: the named characters, then U+2500..=U+259F.
pub open spec fn spec_char_select_items() -> Seq<(Seq<char>, Seq<char>, Seq<char>)> {
    named_chars().map_values(|p: (Seq<char>, char)| named_char_item(p.0, p.1)) + Seq::new(
        0xA0,
        |i: int| block_char_item((0x2500 + i) as nat),
    )
}

fn char_item(c: char, name_or_code: &str, code: u32, subtitle_is_code: bool, subtitle: &str) -> (r: PickerItem)
    ensures
        r.id@ == "char:"@.push(c),
        r.title@ == seq![c] + name_or_code@,
        subtitle_is_code ==> r.subtitle@ == "U+"@ + hex4(code as nat),
        !subtitle_is_code ==> r.subtitle@ == subtitle@,
{
    let mut id = String::new();
    push_str(&mut id, "char:");
    push_char(&mut id, c);
    let mut title = String::new();
    push_char(&mut title, c);
    push_str(&mut title, name_or_code);
    let mut sub = String::new();
    if subtitle_is_code {
        push_str(&mut sub, "U+");
        push_hex4(&mut sub, code);
    } else {
        push_str(&mut sub, subtitle);
    }
    proof {
        assert(title@ =~= seq![c] + name_or_code@);
        if !subtitle_is_code {
            assert(sub@ =~= subtitle@);
        }
    }
    PickerItem { id, title, subtitle: sub }
}

/// The character-select picker rows.
pub fn char_select_items() -> (r: Vec<PickerItem>)
    ensures
        item_views(r@) == spec_char_select_items(),
{
    let table = named_char_table();
    let ghost named = named_chars().map_values(|p: (Seq<char>, char)| named_char_item(p.0, p.1));
    let mut items: Vec<PickerItem> = Vec::new();
    let mut i: usize = 0;
    while i < table.len()
        invariant
            table@.map_values(|p: (&str, char)| (p.0@, p.1)) == named_chars(),
            named == named_chars().map_values(|p: (Seq<char>, char)| named_char_item(p.0, p.1)),
            0 <= i <= table@.len(),
            item_views(items@) == named.take(i as int),
        decreases table@.len() - i,
    {
        let (name, c) = table[i];
        let mut label = String::new();
        push_str(&mut label, "  ");
        push_str(&mut label, name);
        let it = char_item(c, label.as_str(), c as u32, true, "");
        proof {
            assert(named_chars()[i as int] == (name@, c));
            assert(seq![c] + label@ =~= seq![c] + "  "@ + name@);
            assert(item_view(it) == named[i as int]);
            assert(item_views(items@.push(it)) =~= item_views(items@).push(item_view(it)));
        }
        items.push(it);
        i += 1;
        assert(item_views(items@) =~= named.take(i as int));
    }
    assert(named.take(table@.len() as int) =~= named);
    let ghost blocks = Seq::new(0xA0, |i: int| block_char_item((0x2500 + i) as nat));
    let mut cp: u32 = 0x2500;
    while cp <= 0x259F
        invariant
            0x2500 <= cp <= 0x25A0,
            blocks == Seq::new(0xA0, |i: int| block_char_item((0x2500 + i) as nat)),
            item_views(items@) == named + blocks.take(cp - 0x2500),
        decreases 0x25A0 - cp,
    {
        if let Some(c) = char_from_u32(cp) {
            let mut label = String::new();
            push_str(&mut label, "  U+");
            push_hex4(&mut label, cp);
            let it = char_item(c, label.as_str(), cp, false, "Box drawing / block");
            proof {
                assert(seq![c] + label@ =~= seq![c] + "  U+"@ + hex4(cp as nat));
                assert(item_view(it) == blocks[cp - 0x2500]);
                assert(item_views(items@.push(it)) =~= item_views(items@).push(item_view(it)));
            }
            items.push(it);
        }
        cp += 1;
        assert(item_views(items@) =~= named + blocks.take(cp - 0x2500));
    }
    assert(blocks.take(0xA0) =~= blocks);
    items
}

/// `needle` occurs in `hay`.
#[verifier::opaque]
pub open spec fn contains_text(hay: Seq<char>, needle: Seq<char>) -> bool {
    first_match(vstd::utf8::encode_utf8(hay), vstd::utf8::encode_utf8(needle)) is Some
}

/// A row shows for a query when the lowercased query is empty or occurs in
/// the lowercased title, subtitle or id.
pub open spec fn item_matches(item: (Seq<char>, Seq<char>, Seq<char>), q: Seq<char>) -> bool {
    q.len() == 0 || contains_text(lowercase(item.1), q) || contains_text(lowercase(item.2), q)
        || contains_text(lowercase(item.0), q)
}

/// The rows of `items` that show for `query`, in order.
pub open spec fn spec_filter_items(items: Seq<(Seq<char>, Seq<char>, Seq<char>)>, query: Seq<char>) -> Seq<
    (Seq<char>, Seq<char>, Seq<char>),
> {
    items.filter(|i: (Seq<char>, Seq<char>, Seq<char>)| item_matches(i, lowercase(query)))
}

fn contains_lower(s: &str, q: &str) -> (r: bool)
    ensures
        r == contains_text(lowercase(s@), q@),
{
    proof {
        reveal(contains_text);
    }
    let l = lowercase_str(s);
    find_bytes(l.as_str().as_bytes(), q.as_bytes()).is_some()
}

fn clone_item(i: &PickerItem) -> (r: PickerItem)
    ensures
        item_view(r) == item_view(*i),
{
    PickerItem { id: i.id.clone(), title: i.title.clone(), subtitle: i.subtitle.clone() }
}

/// The rows of `items` that show for `query`, in order.
pub fn filter_items(items: &Vec<PickerItem>, query: &str) -> (r: Vec<PickerItem>)
    ensures
        item_views(r@) == spec_filter_items(item_views(items@), query@),
{
    let q = lowercase_str(query);
    let qs = q.as_str();
    let ghost iv = item_views(items@);
    let ghost pred = |i: (Seq<char>, Seq<char>, Seq<char>)| item_matches(i, lowercase(query@));
    let mut out: Vec<PickerItem> = Vec::new();
    let mut k: usize = 0;
    proof {
        reveal(Seq::filter);
        assert(iv.take(0).filter(pred) =~= Seq::empty());
    }
    while k < items.len()
        invariant
            iv == item_views(items@),
            qs@ == lowercase(query@),
            pred == (|i: (Seq<char>, Seq<char>, Seq<char>)| item_matches(i, lowercase(query@))),
            0 <= k <= items@.len(),
            item_views(out@) == iv.take(k as int).filter(pred),
        decreases items@.len() - k,
    {
        let it = &items[k];
        let keep = qs.is_empty() || contains_lower(it.title.as_str(), qs) || contains_lower(
            it.subtitle.as_str(),
            qs,
        ) || contains_lower(it.id.as_str(), qs);
        proof {
            assert(iv[k as int] == item_view(*it));
            assert(keep == pred(iv[k as int]));
            assert(iv.take(k as int).push(iv[k as int]) =~= iv.take(k + 1));
            iv.take(k as int).lemma_filter_push(iv[k as int], pred);
        }
        if keep {
            let c = clone_item(it);
            proof {
                assert(item_views(out@.push(c)) =~= item_views(out@).push(item_view(c)));
            }
            out.push(c);
        }
        k += 1;
    }
    assert(iv.take(items@.len() as int) =~= iv);
    out
}

/// The filter keeps exactly the rows whose title, subtitle or id holds the
/// query, all compared lowercased (every row when the query is empty): a
/// row whose lowercased subtitle, title or id contains the lowercased query
/// is kept, and every row kept is one of `items` that does.
pub proof fn lemma_filter_keeps_matching_rows(items: Seq<(Seq<char>, Seq<char>, Seq<char>)>, query: Seq<char>)
    ensures
        forall|k: int|
            0 <= k < items.len() && (lowercase(query).len() == 0 || contains_text(
                lowercase(items[k].1),
                lowercase(query),
            ) || contains_text(lowercase(items[k].2), lowercase(query)) || contains_text(
                lowercase(items[k].0),
                lowercase(query),
            )) ==> spec_filter_items(items, query).contains(#[trigger] items[k]),
        forall|row: (Seq<char>, Seq<char>, Seq<char>)|
            #[trigger] spec_filter_items(items, query).contains(row) ==> items.contains(row) && (lowercase(
                query,
            ).len() == 0 || contains_text(lowercase(row.1), lowercase(query)) || contains_text(
                lowercase(row.2),
                lowercase(query),
            ) || contains_text(lowercase(row.0), lowercase(query))),
{
    let pred = |i: (Seq<char>, Seq<char>, Seq<char>)| item_matches(i, lowercase(query));
    assert forall|k: int|
        0 <= k < items.len() && (lowercase(query).len() == 0 || contains_text(
            lowercase(items[k].1),
            lowercase(query),
        ) || contains_text(lowercase(items[k].2), lowercase(query)) || contains_text(
            lowercase(items[k].0),
            lowercase(query),
        )) implies spec_filter_items(items, query).contains(#[trigger] items[k]) by {
        items.lemma_filter_contains(pred, k);
    }
    assert forall|row: (Seq<char>, Seq<char>, Seq<char>)|
        #[trigger] spec_filter_items(items, query).contains(row) implies items.contains(row) && (lowercase(
            query,
        ).len() == 0 || contains_text(lowercase(row.1), lowercase(query)) || contains_text(
            lowercase(row.2),
            lowercase(query),
        ) || contains_text(lowercase(row.0), lowercase(query))) by {
        let f = items.filter(pred);
        items.lemma_filter_contains_rev(pred, row);
        let k = choose|k: int| 0 <= k < f.len() && f[k] == row;
        items.lemma_filter_pred(pred, k);
    }
}

} // verus!
