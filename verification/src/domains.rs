//! Which mux domains the window offers for new tabs.

use vstd::prelude::*;

use crate::find::views;
use crate::text::{chars_of, push_str, str_eq};

verus! {

/// What the window reads of a mux domain.
pub struct DomainInfo {
    pub name: String,
    pub spawnable: bool,
    pub attached: bool,
}

/// Whether `a` sorts before or equal to `b`, character by character (the
/// order of `str`'s `Ord`, which compares the UTF-8 bytes).
pub open spec fn text_le(a: Seq<char>, b: Seq<char>) -> bool
    decreases a.len(),
{
    if a.len() == 0 {
        true
    } else if b.len() == 0 {
        false
    } else if a[0] != b[0] {
        (a[0] as u32) < (b[0] as u32)
    } else {
        text_le(a.drop_first(), b.drop_first())
    }
}

fn text_le_exec(a: &str, b: &str) -> (r: bool)
    ensures
        r == text_le(a@, b@),
{
    let ac = chars_of(a);
    let bc = chars_of(b);
    let mut i: usize = 0;
    assert(a@.skip(0) =~= a@);
    assert(b@.skip(0) =~= b@);
    while i < ac.len() && i < bc.len() && ac[i] == bc[i]
        invariant
            ac@ == a@,
            bc@ == b@,
            0 <= i <= ac@.len(),
            i <= bc@.len(),
            text_le(a@, b@) == text_le(a@.skip(i as int), b@.skip(i as int)),
        decreases ac@.len() - i,
    {
        proof {
            assert(a@.skip(i as int).drop_first() =~= a@.skip(i + 1));
            assert(b@.skip(i as int).drop_first() =~= b@.skip(i + 1));
        }
        i += 1;
    }
    proof {
        if i < ac@.len() {
            assert(a@.skip(i as int)[0] == ac@[i as int]);
        }
        if i < bc@.len() {
            assert(b@.skip(i as int)[0] == bc@[i as int]);
        }
    }
    if i == ac.len() {
        true
    } else if i == bc.len() {
        false
    } else {
        (ac[i] as u32) < (bc[i] as u32)
    }
}

/// A domain can take a new tab from the window: it spawns, is attached,
/// and is not the local domain or nameless.
pub open spec fn offered(d: (Seq<char>, bool, bool)) -> bool {
    d.1 && d.2 && d.0 != "local"@ && d.0.len() > 0
}

/// `name` put into the sorted `names` after every name no greater than it.
pub open spec fn insert_name(names: Seq<Seq<char>>, name: Seq<char>) -> Seq<Seq<char>>
    decreases names.len(),
{
    if names.len() == 0 || text_le(names.last(), name) {
        names.push(name)
    } else {
        insert_name(names.drop_last(), name).push(names.last())
    }
}

/// The offered domains' names, sorted.
pub open spec fn spec_offered_names(domains: Seq<(Seq<char>, bool, bool)>) -> Seq<Seq<char>>
    decreases domains.len(),
{
    if domains.len() == 0 {
        Seq::empty()
    } else {
        let prev = spec_offered_names(domains.drop_last());
        if offered(domains.last()) {
            insert_name(prev, domains.last().0)
        } else {
            prev
        }
    }
}

pub open spec fn domain_views(v: Seq<DomainInfo>) -> Seq<(Seq<char>, bool, bool)> {
    v.map_values(|d: DomainInfo| (d.name@, d.spawnable, d.attached))
}

proof fn lemma_insert_name_tail(sorted: Seq<Seq<char>>, e: Seq<char>, j: int)
    requires
        0 <= j <= sorted.len(),
        forall|t: int| j <= t < sorted.len() ==> !text_le(#[trigger] sorted[t], e),
    ensures
        insert_name(sorted, e) == insert_name(sorted.take(j), e) + sorted.skip(j),
    decreases sorted.len() - j,
{
    if j == sorted.len() {
        assert(sorted.take(j) =~= sorted);
        assert(insert_name(sorted.take(j), e) + sorted.skip(j) =~= insert_name(sorted.take(j), e));
    } else {
        assert(!text_le(sorted[sorted.len() - 1], e));
        let d = sorted.drop_last();
        lemma_insert_name_tail(d, e, j);
        assert(d.take(j) =~= sorted.take(j));
        assert(d.skip(j).push(sorted.last()) =~= sorted.skip(j));
        assert((insert_name(d.take(j), e) + d.skip(j)).push(sorted.last()) =~= insert_name(d.take(j), e)
            + d.skip(j).push(sorted.last()));
    }
}

/// The names of the domains that can take a new tab, sorted.
pub fn offered_domain_names(domains: &Vec<DomainInfo>) -> (r: Vec<String>)
    ensures
        views(r@) == spec_offered_names(domain_views(domains@)),
{
    let ghost dv = domain_views(domains@);
    let mut out: Vec<String> = Vec::new();
    let mut i: usize = 0;
    assert(dv.take(0) =~= Seq::<(Seq<char>, bool, bool)>::empty());
    while i < domains.len()
        invariant
            dv == domain_views(domains@),
            0 <= i <= domains@.len(),
            views(out@) == spec_offered_names(dv.take(i as int)),
        decreases domains@.len() - i,
    {
        let d = &domains[i];
        proof {
            assert(dv.take(i + 1).drop_last() =~= dv.take(i as int));
            assert(dv.take(i + 1).last() == (d.name@, d.spawnable, d.attached));
        }
        let name = d.name.as_str();
        if d.spawnable && d.attached && !str_eq(name, "local") && !name.is_empty() {
            let ghost sorted = views(out@);
            let mut copy = String::new();
            push_str(&mut copy, name);
            out.push(copy);
            let mut j: usize = out.len() - 1;
            proof {
                assert(views(out@) =~= sorted.take(j as int) + seq![name@] + sorted.skip(j as int));
            }
            while j > 0 && !text_le_exec(out[j - 1].as_str(), out[j].as_str())
                invariant
                    0 <= j < out@.len(),
                    out@.len() == sorted.len() + 1,
                    views(out@) == sorted.take(j as int) + seq![name@] + sorted.skip(j as int),
                    forall|t: int| j <= t < sorted.len() ==> !text_le(#[trigger] sorted[t], name@),
                decreases j,
            {
                let ghost v0 = views(out@);
                let ghost raw = out@;
                proof {
                    assert(v0[j - 1] == sorted[j - 1]);
                    assert(v0[j as int] == name@);
                }
                let item = out.remove(j);
                out.insert(j - 1, item);
                proof {
                    let target = sorted.take(j - 1) + seq![name@] + sorted.skip(j - 1);
                    assert forall|t: int| 0 <= t < out@.len() implies #[trigger] views(out@)[t] == target[t] by {
                        if t < j - 1 {
                            assert(out@[t] == raw[t]);
                            assert(v0[t] == target[t]);
                        } else if t == j - 1 {
                            assert(out@[t] == raw[j as int]);
                        } else if t == j {
                            assert(out@[t] == raw[j - 1]);
                        } else {
                            assert(out@[t] == raw[t]);
                            assert(v0[t] == target[t]);
                        }
                    }
                    assert(views(out@) =~= target);
                }
                j -= 1;
            }
            proof {
                let v = views(out@);
                if j > 0 {
                    assert(v[j - 1] == sorted[j - 1]);
                    assert(v[j as int] == name@);
                    assert(text_le(sorted.take(j as int).last(), name@));
                }
                lemma_insert_name_tail(sorted, name@, j as int);
                assert(sorted.take(j as int).push(name@) == insert_name(sorted.take(j as int), name@));
                assert(v =~= insert_name(sorted, name@));
            }
        }
        i += 1;
    }
    assert(dv.take(domains@.len() as int) =~= dv);
    out
}

proof fn lemma_text_le_total(a: Seq<char>, b: Seq<char>)
    ensures
        text_le(a, b) || text_le(b, a),
    decreases a.len(),
{
    if a.len() > 0 && b.len() > 0 {
        if a[0] == b[0] {
            lemma_text_le_total(a.drop_first(), b.drop_first());
        } else {
            vstd::utf8::char_u32_cast(a[0], a[0] as u32);
            vstd::utf8::char_u32_cast(b[0], b[0] as u32);
        }
    }
}

proof fn lemma_text_le_trans(a: Seq<char>, b: Seq<char>, c: Seq<char>)
    requires
        text_le(a, b),
        text_le(b, c),
    ensures
        text_le(a, c),
    decreases a.len(),
{
    if a.len() > 0 && b.len() > 0 && c.len() > 0 && a[0] == b[0] && b[0] == c[0] {
        lemma_text_le_trans(a.drop_first(), b.drop_first(), c.drop_first());
    }
}

pub open spec fn names_sorted(s: Seq<Seq<char>>) -> bool {
    forall|i: int, j: int| 0 <= i < j < s.len() ==> text_le(s[i], s[j])
}

proof fn lemma_insert_name_sorted(sorted: Seq<Seq<char>>, e: Seq<char>)
    requires
        names_sorted(sorted),
    ensures
        names_sorted(insert_name(sorted, e)),
        insert_name(sorted, e).to_multiset() == sorted.to_multiset().insert(e),
    decreases sorted.len(),
{
    broadcast use vstd::seq_lib::group_to_multiset_ensures;
    if sorted.len() == 0 || text_le(sorted.last(), e) {
        let r = sorted.push(e);
        assert forall|i: int, j: int| 0 <= i < j < r.len() implies text_le(r[i], r[j]) by {
            if j == r.len() - 1 {
                if i < sorted.len() - 1 {
                    lemma_text_le_trans(sorted[i], sorted[sorted.len() - 1], e);
                }
            } else {
                assert(r[i] == sorted[i] && r[j] == sorted[j]);
            }
        }
    } else {
        let d = sorted.drop_last();
        assert forall|i: int, j: int| 0 <= i < j < d.len() implies text_le(d[i], d[j]) by {
            assert(d[i] == sorted[i] && d[j] == sorted[j]);
        }
        lemma_insert_name_sorted(d, e);
        let ins = insert_name(d, e);
        let last = sorted.last();
        let r = ins.push(last);
        assert(sorted =~= d.push(last));
        lemma_text_le_total(last, e);
        assert forall|i: int, j: int| 0 <= i < j < r.len() implies text_le(r[i], r[j]) by {
            if j == r.len() - 1 {
                let x = ins[i];
                assert(r[i] == x);
                assert(ins.contains(x));
                assert(ins.to_multiset().count(x) > 0);
                if x != e {
                    assert(d.to_multiset().count(x) > 0);
                    assert(d.contains(x));
                    let k = choose|k: int| 0 <= k < d.len() && d[k] == x;
                    assert(sorted[k] == x);
                    assert(text_le(sorted[k], sorted[sorted.len() - 1]));
                }
            } else {
                assert(r[i] == ins[i] && r[j] == ins[j]);
            }
        }
    }
}

/// The offered domain names come in `str` order, and they are exactly the
/// names of the domains that can take a new tab, each as often as it is
/// listed.
pub proof fn lemma_offered_names_sorted(domains: Seq<(Seq<char>, bool, bool)>)
    ensures
        names_sorted(spec_offered_names(domains)),
        spec_offered_names(domains).to_multiset() == domains.filter(
            |d: (Seq<char>, bool, bool)| offered(d),
        ).map_values(|d: (Seq<char>, bool, bool)| d.0).to_multiset(),
    decreases domains.len(),
{
    broadcast use vstd::seq_lib::group_to_multiset_ensures;
    reveal(Seq::filter);
    if domains.len() > 0 {
        lemma_offered_names_sorted(domains.drop_last());
        let prev = spec_offered_names(domains.drop_last());
        let f = |d: (Seq<char>, bool, bool)| offered(d);
        let g = |d: (Seq<char>, bool, bool)| d.0;
        if offered(domains.last()) {
            lemma_insert_name_sorted(prev, domains.last().0);
            assert(domains.filter(f).map_values(g) =~= domains.drop_last().filter(f).map_values(g).push(
                domains.last().0,
            ));
        } else {
            assert(domains.filter(f).map_values(g) =~= domains.drop_last().filter(f).map_values(g));
        }
    } else {
        assert(domains.filter(|d: (Seq<char>, bool, bool)| offered(d)) =~= Seq::empty());
    }
}

} // verus!
