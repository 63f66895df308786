//! The launcher list (shells, domains, windows, workspaces, splits, tabs
//! and the configured launch menu) and what choosing one of its rows does.

use vstd::prelude::*;

use crate::find::views;
use crate::picker::{item_view, item_views, PickerItem};
use crate::split_layout::SplitAxis;
use crate::text::{
    decimal, lemma_decimal_value, lemma_is_prefix, lemma_not_prefix, lemma_parse_usize_decimal, parse_usize, push_decimal, push_str, spec_parse_usize, spec_strip_prefix, str_eq, strip_prefix,
};

verus! {

/// A shell the launcher offers: its label and, for a domain shell, the
/// domain it spawns in.
#[derive(Debug, PartialEq, Eq)]
pub struct ShellEntry {
    pub label: String,
    pub domain: Option<String>,
}

pub open spec fn shell_views(v: Seq<ShellEntry>) -> Seq<(Seq<char>, Option<Seq<char>>)> {
    v.map_values(
        |s: ShellEntry| (
            s.label@,
            match s.domain {
                Some(d) => Some(d@),
                None => None,
            },
        ),
    )
}

pub open spec fn opt_views(v: Seq<Option<String>>) -> Seq<Option<Seq<char>>> {
    v.map_values(
        |o: Option<String>| match o {
            Some(s) => Some(s@),
            None => None,
        },
    )
}

pub type ItemView = (Seq<char>, Seq<char>, Seq<char>);

pub open spec fn shell_item(i: int, s: (Seq<char>, Option<Seq<char>>)) -> ItemView {
    (
        "launch:tab:"@ + decimal(i as nat),
        "New Tab \u{2014} "@ + s.0,
        match s.1 {
            Some(d) => "domain `"@ + d + "`"@,
            None => "Spawn"@,
        },
    )
}

pub open spec fn domain_item(id: Seq<char>) -> ItemView {
    ("domain:"@ + id, "New Tab (domain `"@ + id + "`)"@, "Mux domain"@)
}

pub open spec fn workspace_item(name: Seq<char>) -> ItemView {
    ("workspace:switch:"@ + name, "Switch to workspace: `"@ + name + "`"@, "Window | Workspace"@)
}

pub open spec fn tab_item(i: int, title: Seq<char>) -> ItemView {
    ("tab:"@ + decimal(i as nat), "Activate tab: "@ + title, "Tab "@ + decimal((i + 1) as nat))
}

pub open spec fn menu_item(i: int, label: Option<Seq<char>>) -> ItemView {
    let l = match label {
        Some(l) => l,
        None => "launch_menu #"@ + decimal(i as nat),
    };
    ("launch:menu:"@ + decimal(i as nat), l + " (New Tab)"@, "lua launch_menu"@)
}

/// Whether one of the shells already spawns in domain `id`.
pub open spec fn shell_has_domain(shells: Seq<(Seq<char>, Option<Seq<char>>)>, id: Seq<char>) -> bool {
    exists|k: int| 0 <= k < shells.len() && #[trigger] shells[k].1 == Some(id)
}

/// The launcher rows: a row per shell, per domain no shell covers, a new
/// window, a row per workspace other than `current`, create-workspace, the
/// two splits, a row per tab, and a row per launch-menu entry.
pub open spec fn spec_launcher_items(
    shells: Seq<(Seq<char>, Option<Seq<char>>)>,
    domains: Seq<Seq<char>>,
    current: Seq<char>,
    names: Seq<Seq<char>>,
    tabs: Seq<Seq<char>>,
    menu: Seq<Option<Seq<char>>>,
) -> Seq<ItemView> {
    Seq::new(shells.len(), |i: int| shell_item(i, shells[i])) + domains.filter(
        |id: Seq<char>| !shell_has_domain(shells, id),
    ).map_values(|id: Seq<char>| domain_item(id)) + seq![
        ("launch:window"@, "New Window"@, "Spawn"@),
    ] + names.filter(|n: Seq<char>| n != current).map_values(|n: Seq<char>| workspace_item(n)) + seq![
        ("workspace:create"@, "Create new Workspace"@, "current is `"@ + current + "`"@),
        ("launch:splith"@, "Split Horizontally"@, "Current tab"@),
        ("launch:splitv"@, "Split Vertically"@, "Current tab"@),
    ] + Seq::new(tabs.len(), |i: int| tab_item(i, tabs[i])) + Seq::new(
        menu.len(),
        |i: int| menu_item(i, menu[i]),
    )
}

fn item(id: String, title: String, subtitle: String) -> (r: PickerItem)
    ensures
        item_view(r) == (id@, title@, subtitle@),
{
    PickerItem { id, title, subtitle }
}

fn lit(s: &str) -> (r: String)
    ensures
        r@ == s@,
{
    let mut t = String::new();
    push_str(&mut t, s);
    t
}

fn push_item(items: &mut Vec<PickerItem>, it: PickerItem)
    ensures
        item_views(final(items)@) == item_views(old(items)@).push(item_view(it)),
{
    let ghost before = items@;
    items.push(it);
    assert(item_views(items@) =~= item_views(before).push(item_view(it)));
}

fn any_shell_domain(shells: &Vec<ShellEntry>, id: &str) -> (r: bool)
    ensures
        r == shell_has_domain(shell_views(shells@), id@),
{
    let ghost sv = shell_views(shells@);
    let mut k: usize = 0;
    while k < shells.len()
        invariant
            sv == shell_views(shells@),
            0 <= k <= shells@.len(),
            forall|j: int| 0 <= j < k ==> sv[j].1 != Some(id@),
        decreases shells@.len() - k,
    {
        if let Some(d) = &shells[k].domain {
            if str_eq(d.as_str(), id) {
                assert(sv[k as int].1 == Some(id@));
                return true;
            }
        }
        k += 1;
    }
    false
}

/// The launcher rows for the given shells, spawnable domains, workspaces
/// (`current` is the one shown), tab titles and launch-menu labels.
pub fn launcher_items(
    shells: &Vec<ShellEntry>,
    domains: &Vec<String>,
    current: &str,
    names: &Vec<String>,
    tabs: &Vec<String>,
    menu: &Vec<Option<String>>,
) -> (r: Vec<PickerItem>)
    requires
        tabs@.len() < usize::MAX,
    ensures
        item_views(r@) == spec_launcher_items(
            shell_views(shells@),
            views(domains@),
            current@,
            views(names@),
            views(tabs@),
            opt_views(menu@),
        ),
{
    let ghost sv = shell_views(shells@);
    let mut items: Vec<PickerItem> = Vec::new();
    let mut i: usize = 0;
    assert(item_views(items@) =~= Seq::new(0, |t: int| shell_item(t, sv[t])));
    while i < shells.len()
        invariant
            sv == shell_views(shells@),
            0 <= i <= shells@.len(),
            item_views(items@) == Seq::new(i as nat, |t: int| shell_item(t, sv[t])),
        decreases shells@.len() - i,
    {
        let s = &shells[i];
        let mut id = lit("launch:tab:");
        push_decimal(&mut id, i);
        let mut title = lit("New Tab \u{2014} ");
        push_str(&mut title, s.label.as_str());
        let sub = match &s.domain {
            Some(d) => {
                let mut t = lit("domain `");
                push_str(&mut t, d.as_str());
                push_str(&mut t, "`");
                t
            },
            None => lit("Spawn"),
        };
        let it = item(id, title, sub);
        proof {
            assert(sv[i as int] == shell_views(shells@)[i as int]);
            assert(item_view(it) == shell_item(i as int, sv[i as int]));
        }
        push_item(&mut items, it);
        i += 1;
        assert(item_views(items@) =~= Seq::new(i as nat, |t: int| shell_item(t, sv[t])));
    }
    let ghost seg1 = item_views(items@);
    let ghost dv = views(domains@);
    let ghost uncovered = |id: Seq<char>| !shell_has_domain(sv, id);
    let mut j: usize = 0;
    proof {
        reveal(Seq::filter);
        assert(dv.take(0).filter(uncovered).map_values(|id: Seq<char>| domain_item(id)) =~= Seq::empty());
        assert(item_views(items@) =~= seg1 + Seq::empty());
    }
    while j < domains.len()
        invariant
            sv == shell_views(shells@),
            dv == views(domains@),
            uncovered == (|id: Seq<char>| !shell_has_domain(sv, id)),
            0 <= j <= domains@.len(),
            item_views(items@) == seg1 + dv.take(j as int).filter(uncovered).map_values(
                |id: Seq<char>| domain_item(id),
            ),
        decreases domains@.len() - j,
    {
        let d = domains[j].as_str();
        proof {
            assert(dv[j as int] == d@);
            assert(dv.take(j as int).push(d@) =~= dv.take(j + 1));
            dv.take(j as int).lemma_filter_push(d@, uncovered);
        }
        if !any_shell_domain(shells, d) {
            let mut id = lit("domain:");
            push_str(&mut id, d);
            let mut title = lit("New Tab (domain `");
            push_str(&mut title, d);
            push_str(&mut title, "`)");
            let it = item(id, title, lit("Mux domain"));
            proof {
                assert(item_view(it) == domain_item(d@));
                let f = dv.take(j as int).filter(uncovered);
                assert(f.push(d@).map_values(|id: Seq<char>| domain_item(id)) =~= f.map_values(
                    |id: Seq<char>| domain_item(id),
                ).push(domain_item(d@)));
            }
            push_item(&mut items, it);
        }
        j += 1;
    }
    assert(dv.take(domains@.len() as int) =~= dv);
    push_item(&mut items, item(lit("launch:window"), lit("New Window"), lit("Spawn")));
    let ghost seg3 = item_views(items@);
    let ghost nv = views(names@);
    let ghost other = |n: Seq<char>| n != current@;
    let mut k: usize = 0;
    proof {
        reveal(Seq::filter);
        assert(nv.take(0).filter(other).map_values(|n: Seq<char>| workspace_item(n)) =~= Seq::empty());
        assert(item_views(items@) =~= seg3 + Seq::empty());
    }
    while k < names.len()
        invariant
            nv == views(names@),
            other == (|n: Seq<char>| n != current@),
            0 <= k <= names@.len(),
            item_views(items@) == seg3 + nv.take(k as int).filter(other).map_values(
                |n: Seq<char>| workspace_item(n),
            ),
        decreases names@.len() - k,
    {
        let name = names[k].as_str();
        proof {
            assert(nv[k as int] == name@);
            assert(nv.take(k as int).push(name@) =~= nv.take(k + 1));
            nv.take(k as int).lemma_filter_push(name@, other);
        }
        if !str_eq(name, current) {
            let mut id = lit("workspace:switch:");
            push_str(&mut id, name);
            let mut title = lit("Switch to workspace: `");
            push_str(&mut title, name);
            push_str(&mut title, "`");
            let it = item(id, title, lit("Window | Workspace"));
            proof {
                assert(item_view(it) == workspace_item(name@));
                let f = nv.take(k as int).filter(other);
                assert(f.push(name@).map_values(|n: Seq<char>| workspace_item(n)) =~= f.map_values(
                    |n: Seq<char>| workspace_item(n),
                ).push(workspace_item(name@)));
            }
            push_item(&mut items, it);
        }
        k += 1;
    }
    assert(nv.take(names@.len() as int) =~= nv);
    let mut sub = lit("current is `");
    push_str(&mut sub, current);
    push_str(&mut sub, "`");
    push_item(&mut items, item(lit("workspace:create"), lit("Create new Workspace"), sub));
    push_item(&mut items, item(lit("launch:splith"), lit("Split Horizontally"), lit("Current tab")));
    push_item(&mut items, item(lit("launch:splitv"), lit("Split Vertically"), lit("Current tab")));
    let ghost seg5 = item_views(items@);
    let ghost tv = views(tabs@);
    let mut t: usize = 0;
    assert(item_views(items@) =~= seg5 + Seq::new(0, |x: int| tab_item(x, tv[x])));
    while t < tabs.len()
        invariant
            tv == views(tabs@),
            tabs@.len() < usize::MAX,
            0 <= t <= tabs@.len(),
            item_views(items@) == seg5 + Seq::new(t as nat, |x: int| tab_item(x, tv[x])),
        decreases tabs@.len() - t,
    {
        let mut id = lit("tab:");
        push_decimal(&mut id, t);
        let mut title = lit("Activate tab: ");
        push_str(&mut title, tabs[t].as_str());
        let mut sub = lit("Tab ");
        push_decimal(&mut sub, t + 1);
        let it = item(id, title, sub);
        proof {
            assert(tv[t as int] == tabs@[t as int]@);
            assert(item_view(it) == tab_item(t as int, tv[t as int]));
        }
        push_item(&mut items, it);
        t += 1;
        assert(item_views(items@) =~= seg5 + Seq::new(t as nat, |x: int| tab_item(x, tv[x])));
    }
    let ghost seg6 = item_views(items@);
    let ghost mv = opt_views(menu@);
    let mut m: usize = 0;
    assert(item_views(items@) =~= seg6 + Seq::new(0, |x: int| menu_item(x, mv[x])));
    while m < menu.len()
        invariant
            mv == opt_views(menu@),
            0 <= m <= menu@.len(),
            item_views(items@) == seg6 + Seq::new(m as nat, |x: int| menu_item(x, mv[x])),
        decreases menu@.len() - m,
    {
        let mut label = match &menu[m] {
            Some(l) => lit(l.as_str()),
            None => {
                let mut l = lit("launch_menu #");
                push_decimal(&mut l, m);
                l
            },
        };
        push_str(&mut label, " (New Tab)");
        let mut id = lit("launch:menu:");
        push_decimal(&mut id, m);
        let it = item(id, label, lit("lua launch_menu"));
        proof {
            assert(item_view(it) == menu_item(m as int, mv[m as int]));
        }
        push_item(&mut items, it);
        m += 1;
        assert(item_views(items@) =~= seg6 + Seq::new(m as nat, |x: int| menu_item(x, mv[x])));
    }
    proof {
        assert(item_views(items@) =~= spec_launcher_items(sv, dv, current@, nv, tv, mv));
    }
    items
}

/// What choosing a launcher or tab-navigator row does.
#[derive(Debug, PartialEq, Eq)]
pub enum LauncherAction {
    /// A workspace id: run it as a palette command.
    PaletteCommand,
    SpawnDomain(String),
    ActivateTab(usize),
    LaunchShell(usize),
    SpawnWindow,
    Split(SplitAxis),
    LaunchMenu(usize),
    Nothing,
}

pub enum LauncherActionView {
    PaletteCommand,
    SpawnDomain(Seq<char>),
    ActivateTab(usize),
    LaunchShell(usize),
    SpawnWindow,
    Split(SplitAxis),
    LaunchMenu(usize),
    Nothing,
}

impl View for LauncherAction {
    type V = LauncherActionView;

    open spec fn view(&self) -> LauncherActionView {
        match self {
            LauncherAction::PaletteCommand => LauncherActionView::PaletteCommand,
            LauncherAction::SpawnDomain(s) => LauncherActionView::SpawnDomain(s@),
            LauncherAction::ActivateTab(i) => LauncherActionView::ActivateTab(*i),
            LauncherAction::LaunchShell(i) => LauncherActionView::LaunchShell(*i),
            LauncherAction::SpawnWindow => LauncherActionView::SpawnWindow,
            LauncherAction::Split(a) => LauncherActionView::Split(*a),
            LauncherAction::LaunchMenu(i) => LauncherActionView::LaunchMenu(*i),
            LauncherAction::Nothing => LauncherActionView::Nothing,
        }
    }
}

pub open spec fn with_index(n: Option<usize>, f: spec_fn(usize) -> LauncherActionView) -> LauncherActionView {
    match n {
        Some(i) => f(i),
        None => LauncherActionView::Nothing,
    }
}

/// The launcher row ids, tried in this order.
pub open spec fn spec_launcher_action(id: Seq<char>) -> LauncherActionView {
    if spec_strip_prefix(id, "workspace:"@) is Some {
        LauncherActionView::PaletteCommand
    } else if let Some(name) = spec_strip_prefix(id, "domain:"@) {
        LauncherActionView::SpawnDomain(name)
    } else if let Some(n) = spec_strip_prefix(id, "tab:"@) {
        with_index(spec_parse_usize(n), |i: usize| LauncherActionView::ActivateTab(i))
    } else if let Some(n) = spec_strip_prefix(id, "launch:tab:"@) {
        with_index(spec_parse_usize(n), |i: usize| LauncherActionView::LaunchShell(i))
    } else if id == "launch:window"@ {
        LauncherActionView::SpawnWindow
    } else if id == "launch:splith"@ {
        LauncherActionView::Split(SplitAxis::Horizontal)
    } else if id == "launch:splitv"@ {
        LauncherActionView::Split(SplitAxis::Vertical)
    } else if let Some(n) = spec_strip_prefix(id, "launch:menu:"@) {
        with_index(spec_parse_usize(n), |i: usize| LauncherActionView::LaunchMenu(i))
    } else {
        LauncherActionView::Nothing
    }
}

/// Decodes a launcher row id.
pub fn launcher_action(id: &str) -> (r: LauncherAction)
    ensures
        r@ == spec_launcher_action(id@),
{
    if strip_prefix(id, "workspace:").is_some() {
        return LauncherAction::PaletteCommand;
    }
    if let Some(name) = strip_prefix(id, "domain:") {
        return LauncherAction::SpawnDomain(name.to_string());
    }
    if let Some(n) = strip_prefix(id, "tab:") {
        return match parse_usize(n) {
            Some(i) => LauncherAction::ActivateTab(i),
            None => LauncherAction::Nothing,
        };
    }
    if let Some(n) = strip_prefix(id, "launch:tab:") {
        return match parse_usize(n) {
            Some(i) => LauncherAction::LaunchShell(i),
            None => LauncherAction::Nothing,
        };
    }
    if str_eq(id, "launch:window") {
        return LauncherAction::SpawnWindow;
    }
    if str_eq(id, "launch:splith") {
        return LauncherAction::Split(SplitAxis::Horizontal);
    }
    if str_eq(id, "launch:splitv") {
        return LauncherAction::Split(SplitAxis::Vertical);
    }
    if let Some(n) = strip_prefix(id, "launch:menu:") {
        return match parse_usize(n) {
            Some(i) => LauncherAction::LaunchMenu(i),
            None => LauncherAction::Nothing,
        };
    }
    LauncherAction::Nothing
}

/// The tab navigator's row for tab `i` titled `title`.
pub open spec fn tab_nav_item(i: int, title: Seq<char>) -> ItemView {
    ("tab:"@ + decimal(i as nat), title, "Tab "@ + decimal((i + 1) as nat))
}

/// The tab navigator rows, one per tab title.
pub fn tab_nav_items(titles: &Vec<String>) -> (r: Vec<PickerItem>)
    requires
        titles@.len() < usize::MAX,
    ensures
        item_views(r@) == Seq::new(titles@.len(), |i: int| tab_nav_item(i, titles@[i]@)),
{
    let mut items: Vec<PickerItem> = Vec::new();
    let mut i: usize = 0;
    assert(item_views(items@) =~= Seq::new(0, |x: int| tab_nav_item(x, titles@[x]@)));
    while i < titles.len()
        invariant
            titles@.len() < usize::MAX,
            0 <= i <= titles@.len(),
            item_views(items@) == Seq::new(i as nat, |x: int| tab_nav_item(x, titles@[x]@)),
        decreases titles@.len() - i,
    {
        let mut id = lit("tab:");
        push_decimal(&mut id, i);
        let mut sub = lit("Tab ");
        push_decimal(&mut sub, i + 1);
        let it = item(id, lit(titles[i].as_str()), sub);
        push_item(&mut items, it);
        i += 1;
        assert(item_views(items@) =~= Seq::new(i as nat, |x: int| tab_nav_item(x, titles@[x]@)));
    }
    items
}

/// The letters that name panes in the pane picker.
pub open spec fn pane_letters() -> Seq<char> {
    "123456789abcdefghijklmnopqrstuvwxyz"@
}

/// The pane picker's row for pane `i` titled `title`: its letter (`?` past
/// the last letter), the title, and a mark on the active pane.
pub open spec fn pane_item(i: int, title: Seq<char>, active: int) -> ItemView {
    let letter = if i < pane_letters().len() {
        pane_letters()[i]
    } else {
        '?'
    };
    (
        "pane:"@ + decimal(i as nat),
        seq![letter] + ": "@ + title + (if i == active {
            " (active)"@
        } else {
            Seq::empty()
        }),
        "Pane "@ + decimal((i + 1) as nat),
    )
}

/// The pane picker rows for the panes titled `titles`, `active` being the
/// focused one.
pub fn pane_items(titles: &Vec<String>, active: usize) -> (r: Vec<PickerItem>)
    requires
        titles@.len() < usize::MAX,
    ensures
        item_views(r@) == Seq::new(titles@.len(), |i: int| pane_item(i, titles@[i]@, active as int)),
{
    let letters = crate::text::chars_of("123456789abcdefghijklmnopqrstuvwxyz");
    let mut items: Vec<PickerItem> = Vec::new();
    let mut i: usize = 0;
    assert(item_views(items@) =~= Seq::new(0, |x: int| pane_item(x, titles@[x]@, active as int)));
    while i < titles.len()
        invariant
            letters@ == pane_letters(),
            titles@.len() < usize::MAX,
            0 <= i <= titles@.len(),
            item_views(items@) == Seq::new(i as nat, |x: int| pane_item(x, titles@[x]@, active as int)),
        decreases titles@.len() - i,
    {
        let letter = if i < letters.len() {
            letters[i]
        } else {
            '?'
        };
        let mut id = lit("pane:");
        push_decimal(&mut id, i);
        let mut title = String::new();
        crate::text::push_char(&mut title, letter);
        push_str(&mut title, ": ");
        push_str(&mut title, titles[i].as_str());
        if i == active {
            push_str(&mut title, " (active)");
        }
        let mut sub = lit("Pane ");
        push_decimal(&mut sub, i + 1);
        let it = item(id, title, sub);
        proof {
            let want = pane_item(i as int, titles@[i as int]@, active as int);
            if i != active {
                assert(want.1 =~= seq![letter] + ": "@ + titles@[i as int]@);
            }
            assert(item_view(it) =~~= want);
        }
        push_item(&mut items, it);
        i += 1;
        assert(item_views(items@) =~= Seq::new(i as nat, |x: int| pane_item(x, titles@[x]@, active as int)));
    }
    items
}

/// Choosing a launcher row does what the row offers: a shell row launches
/// that shell, a domain row spawns in that domain, a workspace row runs as
/// a palette command, a tab row activates that tab, a launch-menu row runs
/// that entry, and the window and split rows do those.
pub proof fn lemma_launcher_rows_decode(
    i: usize,
    shell: (Seq<char>, Option<Seq<char>>),
    id: Seq<char>,
    name: Seq<char>,
    title: Seq<char>,
    label: Option<Seq<char>>,
)
    ensures
        spec_launcher_action(shell_item(i as int, shell).0) == LauncherActionView::LaunchShell(i),
        spec_launcher_action(domain_item(id).0) == LauncherActionView::SpawnDomain(id),
        spec_launcher_action(workspace_item(name).0) == LauncherActionView::PaletteCommand,
        spec_launcher_action("workspace:create"@) == LauncherActionView::PaletteCommand,
        spec_launcher_action("launch:window"@) == LauncherActionView::SpawnWindow,
        spec_launcher_action("launch:splith"@) == LauncherActionView::Split(SplitAxis::Horizontal),
        spec_launcher_action("launch:splitv"@) == LauncherActionView::Split(SplitAxis::Vertical),
        spec_launcher_action(tab_item(i as int, title).0) == LauncherActionView::ActivateTab(i),
        spec_launcher_action(menu_item(i as int, label).0) == LauncherActionView::LaunchMenu(i),
{
    reveal_strlit("workspace:");
    reveal_strlit("workspace:switch:");
    reveal_strlit("workspace:create");
    reveal_strlit("domain:");
    reveal_strlit("tab:");
    reveal_strlit("launch:tab:");
    reveal_strlit("launch:window");
    reveal_strlit("launch:splith");
    reveal_strlit("launch:splitv");
    reveal_strlit("launch:menu:");
    let d = decimal(i as nat);
    lemma_decimal_value(i as nat);
    lemma_parse_usize_decimal(i);
    // shell rows
    let sid = "launch:tab:"@ + d;
    lemma_not_prefix(sid, "workspace:"@, 0);
    lemma_not_prefix(sid, "domain:"@, 0);
    lemma_not_prefix(sid, "tab:"@, 0);
    lemma_is_prefix("launch:tab:"@, d);
    // domain rows
    let did = "domain:"@ + id;
    lemma_not_prefix(did, "workspace:"@, 0);
    lemma_is_prefix("domain:"@, id);
    // workspace rows
    let wid = "workspace:switch:"@ + name;
    assert(wid.subrange(0, 10) =~= "workspace:"@);
    lemma_is_prefix("workspace:"@, wid.subrange(10, wid.len() as int));
    assert("workspace:"@ + wid.subrange(10, wid.len() as int) =~= wid);
    assert("workspace:create"@ =~= "workspace:"@ + "create"@) by {
        reveal_strlit("create");
    }
    lemma_is_prefix("workspace:"@, "create"@);
    // fixed rows
    lemma_not_prefix("launch:window"@, "workspace:"@, 0);
    lemma_not_prefix("launch:window"@, "domain:"@, 0);
    lemma_not_prefix("launch:window"@, "tab:"@, 0);
    lemma_not_prefix("launch:window"@, "launch:tab:"@, 7);
    lemma_not_prefix("launch:splith"@, "workspace:"@, 0);
    lemma_not_prefix("launch:splith"@, "domain:"@, 0);
    lemma_not_prefix("launch:splith"@, "tab:"@, 0);
    lemma_not_prefix("launch:splith"@, "launch:tab:"@, 7);
    lemma_not_prefix("launch:splitv"@, "workspace:"@, 0);
    lemma_not_prefix("launch:splitv"@, "domain:"@, 0);
    lemma_not_prefix("launch:splitv"@, "tab:"@, 0);
    lemma_not_prefix("launch:splitv"@, "launch:tab:"@, 7);
    assert("launch:splith"@ != "launch:window"@) by {
        assert("launch:splith"@[7] != "launch:window"@[7]);
    }
    assert("launch:splitv"@ != "launch:window"@) by {
        assert("launch:splitv"@[7] != "launch:window"@[7]);
    }
    assert("launch:splitv"@ != "launch:splith"@) by {
        assert("launch:splitv"@[12] != "launch:splith"@[12]);
    }
    // tab rows
    let tid = "tab:"@ + d;
    lemma_not_prefix(tid, "workspace:"@, 0);
    lemma_not_prefix(tid, "domain:"@, 0);
    lemma_is_prefix("tab:"@, d);
    // launch-menu rows
    let mid = "launch:menu:"@ + d;
    lemma_not_prefix(mid, "workspace:"@, 0);
    lemma_not_prefix(mid, "domain:"@, 0);
    lemma_not_prefix(mid, "tab:"@, 0);
    lemma_not_prefix(mid, "launch:tab:"@, 7);
    assert(mid != "launch:window"@) by {
        assert(mid[7] != "launch:window"@[7]);
    }
    assert(mid != "launch:splith"@) by {
        assert(mid[7] != "launch:splith"@[7]);
    }
    assert(mid != "launch:splitv"@) by {
        assert(mid[7] != "launch:splitv"@[7]);
    }
    lemma_is_prefix("launch:menu:"@, d);
}

} // verus!
