//! The command palette's rows: the catalog, one row per extra mux domain,
//! one per other workspace, then the workspace commands; and the filter
//! that keeps the rows matching the query.

use vstd::prelude::*;

use crate::commands::{palette_catalog, palette_commands, CommandStatus, PaletteCommand};
use crate::find::{find_bytes, lowercase, lowercase_str, views};
use crate::picker::contains_text;
use crate::palette_dispatch::{spec_palette_action, PaletteTargetView};
use crate::text::{
    decimal, lemma_is_prefix, lemma_not_prefix, push_decimal, push_str, spec_strip_prefix, str_eq, strip_prefix,
};

verus! {

/// One palette row.
#[derive(Debug, PartialEq, Eq)]
pub struct PaletteRow {
    pub id: String,
    pub brief: String,
    pub doc: String,
    pub menubar: String,
    pub keys: String,
    pub wired: bool,
}

/// A palette row as character sequences.
pub struct RowView {
    pub id: Seq<char>,
    pub brief: Seq<char>,
    pub doc: Seq<char>,
    pub menubar: Seq<char>,
    pub keys: Seq<char>,
    pub wired: bool,
}

pub open spec fn row_view(r: PaletteRow) -> RowView {
    RowView { id: r.id@, brief: r.brief@, doc: r.doc@, menubar: r.menubar@, keys: r.keys@, wired: r.wired }
}

pub open spec fn row_views(v: Seq<PaletteRow>) -> Seq<RowView> {
    v.map_values(|r: PaletteRow| row_view(r))
}

/// The row for a catalog command.
pub open spec fn static_row(c: PaletteCommand) -> RowView {
    RowView {
        id: c.id@,
        brief: c.brief@,
        doc: c.doc@,
        menubar: c.menubar@,
        keys: c.keys@,
        wired: c.status == CommandStatus::Wired,
    }
}

/// A mux domain that can take a new tab: its name and its label.
#[derive(Debug, PartialEq, Eq)]
pub struct DomainProfile {
    pub id: String,
    pub label: String,
}

/// The row that opens a tab in domain `id` labelled `label`.
pub open spec fn domain_row(id: Seq<char>, label: Seq<char>) -> RowView {
    RowView {
        id: "domain:"@ + id,
        brief: "New Tab (Domain "@ + label + ")"@,
        doc: "Spawn a tab in mux domain "@ + id,
        menubar: "Shell"@,
        keys: Seq::empty(),
        wired: true,
    }
}

/// The row that switches to workspace `name`.
pub open spec fn workspace_row(name: Seq<char>) -> RowView {
    RowView {
        id: "workspace:switch:"@ + name,
        brief: "Switch to workspace "@ + name,
        doc: Seq::empty(),
        menubar: "Window | Workspace"@,
        keys: Seq::empty(),
        wired: true,
    }
}

pub open spec fn is_workspace_command(c: PaletteCommand) -> bool {
    spec_strip_prefix(c.id@, "workspace:"@) is Some
}

/// The palette rows: the catalog without its workspace commands, a row per
/// domain, a row per workspace other than `current`, then the catalog's
/// workspace commands.
pub open spec fn spec_palette_rows(
    domains: Seq<(Seq<char>, Seq<char>)>,
    current: Seq<char>,
    names: Seq<Seq<char>>,
) -> Seq<RowView> {
    palette_catalog().filter(|c: PaletteCommand| !is_workspace_command(c)).map_values(
        |c: PaletteCommand| static_row(c),
    ) + domains.map_values(|d: (Seq<char>, Seq<char>)| domain_row(d.0, d.1)) + names.filter(
        |n: Seq<char>| n != current,
    ).map_values(|n: Seq<char>| workspace_row(n)) + palette_catalog().filter(
        |c: PaletteCommand| is_workspace_command(c),
    ).map_values(|c: PaletteCommand| static_row(c))
}

pub open spec fn domain_views(v: Seq<DomainProfile>) -> Seq<(Seq<char>, Seq<char>)> {
    v.map_values(|d: DomainProfile| (d.id@, d.label@))
}

fn text(s: &str) -> (r: String)
    ensures
        r@ == s@,
{
    let mut t = String::new();
    push_str(&mut t, s);
    t
}

impl PaletteRow {
    /// The row for a catalog command.
    pub fn from_static(cmd: PaletteCommand) -> (r: PaletteRow)
        ensures
            row_view(r) == static_row(cmd),
    {
        PaletteRow {
            id: text(cmd.id),
            brief: text(cmd.brief),
            doc: text(cmd.doc),
            menubar: text(cmd.menubar),
            keys: text(cmd.keys),
            wired: cmd.is_wired(),
        }
    }

    pub open spec fn spec_haystack(self) -> Seq<char> {
        self.menubar@ + " "@ + self.brief@ + " "@ + self.doc@ + " "@ + self.keys@
    }

    /// The text the filter searches: menubar, brief, doc and keys, spaced.
    pub fn haystack(&self) -> (r: String)
        ensures
            r@ == self.spec_haystack(),
    {
        let mut s = String::new();
        push_str(&mut s, self.menubar.as_str());
        push_str(&mut s, " ");
        push_str(&mut s, self.brief.as_str());
        push_str(&mut s, " ");
        push_str(&mut s, self.doc.as_str());
        push_str(&mut s, " ");
        push_str(&mut s, self.keys.as_str());
        assert(s@ =~= self.spec_haystack());
        s
    }
}

fn push_static_rows(rows: &mut Vec<PaletteRow>, cmds: &Vec<PaletteCommand>, workspace: bool)
    ensures
        row_views(final(rows)@) == row_views(old(rows)@) + cmds@.filter(
            |c: PaletteCommand| is_workspace_command(c) == workspace,
        ).map_values(|c: PaletteCommand| static_row(c)),
{
    let ghost start = row_views(rows@);
    let ghost pred = |c: PaletteCommand| is_workspace_command(c) == workspace;
    let mut k: usize = 0;
    proof {
        reveal(Seq::filter);
        assert(cmds@.take(0).filter(pred).map_values(|c: PaletteCommand| static_row(c)) =~= Seq::empty());
        assert(row_views(rows@) =~= start + Seq::empty());
    }
    while k < cmds.len()
        invariant
            pred == (|c: PaletteCommand| is_workspace_command(c) == workspace),
            0 <= k <= cmds@.len(),
            row_views(rows@) == start + cmds@.take(k as int).filter(pred).map_values(
                |c: PaletteCommand| static_row(c),
            ),
        decreases cmds@.len() - k,
    {
        let c = cmds[k];
        let is_ws = strip_prefix(c.id, "workspace:").is_some();
        proof {
            assert(cmds@.take(k as int).push(c) =~= cmds@.take(k + 1));
            cmds@.take(k as int).lemma_filter_push(c, pred);
        }
        if is_ws == workspace {
            let r = PaletteRow::from_static(c);
            let ghost before = rows@;
            rows.push(r);
            proof {
                assert(row_views(rows@) =~= row_views(before).push(row_view(r)));
                let f = cmds@.take(k as int).filter(pred);
                assert(f.push(c).map_values(|c: PaletteCommand| static_row(c)) =~= f.map_values(
                    |c: PaletteCommand| static_row(c),
                ).push(static_row(c)));
            }
        }
        k += 1;
    }
    assert(cmds@.take(cmds@.len() as int) =~= cmds@);
}

/// All palette rows, given the extra domains, the current workspace and
/// the workspace names.
pub fn palette_rows(domains: &Vec<DomainProfile>, current: &str, names: &Vec<String>) -> (r: Vec<PaletteRow>)
    ensures
        row_views(r@) == spec_palette_rows(domain_views(domains@), current@, views(names@)),
{
    let cmds = palette_commands();
    let mut rows: Vec<PaletteRow> = Vec::new();
    assert(row_views(rows@) =~= Seq::empty());
    push_static_rows(&mut rows, &cmds, false);
    let ghost after_static = row_views(rows@);
    let ghost dv = domain_views(domains@);
    let mut i: usize = 0;
    while i < domains.len()
        invariant
            dv == domain_views(domains@),
            0 <= i <= domains@.len(),
            row_views(rows@) == after_static + dv.take(i as int).map_values(
                |d: (Seq<char>, Seq<char>)| domain_row(d.0, d.1),
            ),
        decreases domains@.len() - i,
    {
        let d = &domains[i];
        let mut id = String::new();
        push_str(&mut id, "domain:");
        push_str(&mut id, d.id.as_str());
        let mut brief = String::new();
        push_str(&mut brief, "New Tab (Domain ");
        push_str(&mut brief, d.label.as_str());
        push_str(&mut brief, ")");
        let mut doc = String::new();
        push_str(&mut doc, "Spawn a tab in mux domain ");
        push_str(&mut doc, d.id.as_str());
        let r = PaletteRow { id, brief, doc, menubar: text("Shell"), keys: String::new(), wired: true };
        let ghost before = rows@;
        rows.push(r);
        proof {
            assert(dv[i as int] == (d.id@, d.label@));
            assert(row_view(r) == domain_row(d.id@, d.label@));
            assert(row_views(rows@) =~= row_views(before).push(row_view(r)));
            assert(dv.take(i + 1) =~= dv.take(i as int).push(dv[i as int]));
            assert(dv.take(i + 1).map_values(|d: (Seq<char>, Seq<char>)| domain_row(d.0, d.1)) =~= dv.take(
                i as int,
            ).map_values(|d: (Seq<char>, Seq<char>)| domain_row(d.0, d.1)).push(domain_row(d.id@, d.label@)));
        }
        i += 1;
    }
    assert(dv.take(domains@.len() as int) =~= dv);
    let ghost after_domains = row_views(rows@);
    let ghost nv = views(names@);
    let ghost other = |n: Seq<char>| n != current@;
    let mut j: usize = 0;
    proof {
        reveal(Seq::filter);
        assert(nv.take(0).filter(other).map_values(|n: Seq<char>| workspace_row(n)) =~= Seq::empty());
        assert(row_views(rows@) =~= after_domains + Seq::empty());
    }
    while j < names.len()
        invariant
            nv == views(names@),
            other == (|n: Seq<char>| n != current@),
            0 <= j <= names@.len(),
            row_views(rows@) == after_domains + nv.take(j as int).filter(other).map_values(
                |n: Seq<char>| workspace_row(n),
            ),
        decreases names@.len() - j,
    {
        let name = names[j].as_str();
        proof {
            assert(nv[j as int] == name@);
            assert(nv.take(j as int).push(name@) =~= nv.take(j + 1));
            nv.take(j as int).lemma_filter_push(name@, other);
        }
        if !str_eq(name, current) {
            let mut id = String::new();
            push_str(&mut id, "workspace:switch:");
            push_str(&mut id, name);
            let mut brief = String::new();
            push_str(&mut brief, "Switch to workspace ");
            push_str(&mut brief, name);
            let r = PaletteRow {
                id,
                brief,
                doc: String::new(),
                menubar: text("Window | Workspace"),
                keys: String::new(),
                wired: true,
            };
            let ghost before = rows@;
            rows.push(r);
            proof {
                assert(row_view(r) == workspace_row(name@));
                assert(row_views(rows@) =~= row_views(before).push(row_view(r)));
                let f = nv.take(j as int).filter(other);
                assert(f.push(name@).map_values(|n: Seq<char>| workspace_row(n)) =~= f.map_values(
                    |n: Seq<char>| workspace_row(n),
                ).push(workspace_row(name@)));
            }
        }
        j += 1;
    }
    assert(nv.take(names@.len() as int) =~= nv);
    let ghost after_names = row_views(rows@);
    push_static_rows(&mut rows, &cmds, true);
    proof {
        let f1 = |x: PaletteCommand| is_workspace_command(x) == false;
        let g1 = |x: PaletteCommand| !is_workspace_command(x);
        let f2 = |x: PaletteCommand| is_workspace_command(x) == true;
        let g2 = |x: PaletteCommand| is_workspace_command(x);
        assert(f1 =~= g1);
        assert(f2 =~= g2);
        assert(row_views(rows@) =~= spec_palette_rows(domain_views(domains@), current@, views(names@)));
    }
    rows
}

/// A row shows for a query when the lowercased query is empty or occurs in
/// the row's lowercased haystack.
pub open spec fn row_matches(r: RowView, q: Seq<char>) -> bool {
    q.len() == 0 || contains_text(lowercase(r.menubar + " "@ + r.brief + " "@ + r.doc + " "@ + r.keys), q)
}

/// The rows that show for `query`, in order.
pub fn filter_rows(rows: Vec<PaletteRow>, query: &str) -> (r: Vec<PaletteRow>)
    ensures
        row_views(r@) == row_views(rows@).filter(|x: RowView| row_matches(x, lowercase(query@))),
{
    let q = lowercase_str(query);
    let qs = q.as_str();
    let ghost rv = row_views(rows@);
    let ghost pred = |x: RowView| row_matches(x, lowercase(query@));
    let mut rows = rows;
    let mut kept: Vec<PaletteRow> = Vec::new();
    let n = rows.len();
    let mut k: usize = 0;
    proof {
        reveal(Seq::filter);
        assert(rv.take(0).filter(pred) =~= Seq::empty());
    }
    // Walk the rows from the back so each can be moved out with `pop`.
    let mut rev: Vec<PaletteRow> = Vec::new();
    while rows.len() > 0
        invariant
            rev@.len() + rows@.len() == n,
            rv.len() == n,
            forall|t: int| 0 <= t < rows@.len() ==> row_view(#[trigger] rows@[t]) == rv[t],
            forall|t: int| 0 <= t < rev@.len() ==> row_view(#[trigger] rev@[t]) == rv[n - 1 - t],
        decreases rows@.len(),
    {
        let r = rows.pop().unwrap();
        rev.push(r);
    }
    while k < n
        invariant
            qs@ == lowercase(query@),
            pred == (|x: RowView| row_matches(x, lowercase(query@))),
            rv.len() == n,
            0 <= k <= n,
            rev@.len() == n - k,
            forall|t: int| 0 <= t < rev@.len() ==> row_view(#[trigger] rev@[t]) == rv[n - 1 - t],
            row_views(kept@) == rv.take(k as int).filter(pred),
        decreases n - k,
    {
        let r = rev.pop().unwrap();
        let hay = r.haystack();
        let keep = qs.is_empty() || contains_haystack(hay.as_str(), qs);
        proof {
            assert(row_view(r) == rv[k as int]);
            assert(rv.take(k as int).push(rv[k as int]) =~= rv.take(k + 1));
            rv.take(k as int).lemma_filter_push(rv[k as int], pred);
        }
        if keep {
            let ghost before = kept@;
            kept.push(r);
            assert(row_views(kept@) =~= row_views(before).push(rv[k as int]));
        }
        k += 1;
    }
    assert(rv.take(n as int) =~= rv);
    kept
}

fn contains_haystack(hay: &str, q: &str) -> (r: bool)
    ensures
        r == contains_text(lowercase(hay@), q@),
{
    proof {
        reveal(contains_text);
    }
    let l = lowercase_str(hay);
    find_bytes(l.as_str().as_bytes(), q.as_bytes()).is_some()
}

/// The rows the palette adds run what they offer: a domain row spawns a
/// tab in its domain and a workspace row switches to its workspace.
pub proof fn lemma_palette_rows_dispatch(id: Seq<char>, label: Seq<char>, name: Seq<char>)
    ensures
        spec_palette_action(domain_row(id, label).id) == PaletteTargetView::SpawnDomain(id),
        spec_palette_action(workspace_row(name).id) == PaletteTargetView::SwitchWorkspace(name),
{
    reveal_strlit("domain:");
    reveal_strlit("workspace:switch:");
    reveal_strlit("workspace:create");
    lemma_is_prefix("domain:"@, id);
    let wid = "workspace:switch:"@ + name;
    lemma_not_prefix(wid, "domain:"@, 0);
    assert(wid != "workspace:create"@) by {
        assert(wid[10] != "workspace:create"@[10]);
    }
    lemma_is_prefix("workspace:switch:"@, name);
}

/// How many of `rows` are wired.
pub open spec fn wired_count(rows: Seq<RowView>) -> nat
    decreases rows.len(),
{
    if rows.len() == 0 {
        0
    } else {
        wired_count(rows.drop_last()) + if rows.last().wired {
            1nat
        } else {
            0nat
        }
    }
}

/// The palette's status line: the last command run, or else how many rows
/// match, how many of them are wired, and the keys.
pub open spec fn spec_palette_status(rows: Seq<RowView>, last_ran: Option<Seq<char>>) -> Seq<char> {
    match last_ran {
        Some(text) => text,
        None => decimal(rows.len()) + " commands · "@ + decimal(wired_count(rows))
            + " wired · dimmed = not yet · ↑↓ select · Enter run · Esc close"@,
    }
}

/// The status line under the palette for the matching `rows`.
pub fn palette_status(rows: &Vec<PaletteRow>, last_ran: Option<&str>) -> (r: String)
    ensures
        r@ == spec_palette_status(row_views(rows@), match last_ran {
            Some(t) => Some(t@),
            None => None,
        }),
{
    if let Some(t) = last_ran {
        let mut out = String::new();
        push_str(&mut out, t);
        assert(out@ =~= t@);
        return out;
    }
    let ghost rv = row_views(rows@);
    let mut wired: usize = 0;
    let mut i: usize = 0;
    while i < rows.len()
        invariant
            rv == row_views(rows@),
            0 <= i <= rows@.len(),
            wired <= i,
            wired == wired_count(rv.take(i as int)),
        decreases rows@.len() - i,
    {
        assert(rv.take(i + 1).drop_last() =~= rv.take(i as int));
        if rows[i].wired {
            wired += 1;
        }
        i += 1;
    }
    assert(rv.take(rows@.len() as int) =~= rv);
    let mut out = String::new();
    push_decimal(&mut out, rows.len());
    push_str(&mut out, " commands · ");
    push_decimal(&mut out, wired);
    push_str(&mut out, " wired · dimmed = not yet · ↑↓ select · Enter run · Esc close");
    assert(out@ =~= spec_palette_status(rv, None));
    out
}

} // verus!
