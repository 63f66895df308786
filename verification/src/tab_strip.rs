//! The fancy tab bar's element tree: finding the scrolling strip of tabs and
//! the new-tab button among the bar's top-level children, and the cached
//! bar that painting reads.

use vstd::prelude::*;

verus! {

/// What a tab-bar element stands for.
#[derive(Debug, Clone, Copy, PartialEq, Eq, Structural)]
pub enum TabBarItem {
    NoItem,
    LeftStatus,
    RightStatus,
    Tab { tab_idx: usize, active: bool },
    NewTabButton,
    WindowButton(u8),
}

/// What a painted item does when clicked.
#[derive(Debug, Clone, Copy, PartialEq, Eq, Structural)]
pub enum UIItemType {
    TabBar(TabBarItem),
    CloseTab(usize),
    AboveScrollThumb,
    ScrollThumb,
    BelowScrollThumb,
    Split,
}

/// A laid-out element: what it stands for, and its children if it has any.
#[derive(Debug)]
pub struct ComputedElement {
    pub item_type: Option<UIItemType>,
    pub content: ComputedElementContent,
}

#[derive(Debug)]
pub enum ComputedElementContent {
    Text,
    Children(Vec<ComputedElement>),
    Poly,
}

/// The kinds of item that the tab-bar queries look for.
#[derive(Debug, Clone, Copy, PartialEq, Eq, Structural)]
pub enum ItemKind {
    AnyTab,
    NewTabButton,
    WindowButton,
}

pub open spec fn kind_matches(t: UIItemType, kind: ItemKind) -> bool {
    match kind {
        ItemKind::AnyTab => t matches UIItemType::TabBar(TabBarItem::Tab { .. }),
        ItemKind::NewTabButton => t == UIItemType::TabBar(TabBarItem::NewTabButton),
        ItemKind::WindowButton => t matches UIItemType::TabBar(TabBarItem::WindowButton(_)),
    }
}

fn item_is(t: &UIItemType, kind: ItemKind) -> (r: bool)
    ensures
        r == kind_matches(*t, kind),
{
    match kind {
        ItemKind::AnyTab => match t {
            UIItemType::TabBar(TabBarItem::Tab { .. }) => true,
            _ => false,
        },
        ItemKind::NewTabButton => match t {
            UIItemType::TabBar(TabBarItem::NewTabButton) => true,
            _ => false,
        },
        ItemKind::WindowButton => match t {
            UIItemType::TabBar(TabBarItem::WindowButton(_)) => true,
            _ => false,
        },
    }
}

/// The element or one of its descendants stands for an item of `kind`.
pub open spec fn elem_contains(e: ComputedElement, kind: ItemKind) -> bool
    decreases e,
{
    ||| (e.item_type matches Some(t) && kind_matches(t, kind))
    ||| match e.content {
        ComputedElementContent::Children(kids) => exists|i: int|
            0 <= i < kids@.len() && elem_contains(kids@[i], kind),
        _ => false,
    }
}

/// Whether `element` or a descendant stands for an item of `kind`.
pub fn contains_item(element: &ComputedElement, kind: ItemKind) -> (r: bool)
    ensures
        r == elem_contains(*element, kind),
    decreases element,
{
    if let Some(t) = &element.item_type {
        if item_is(t, kind) {
            return true;
        }
    }
    match &element.content {
        ComputedElementContent::Children(kids) => {
            let mut i: usize = 0;
            while i < kids.len()
                invariant
                    element.content == ComputedElementContent::Children(*kids),
                    !(element.item_type matches Some(t) && kind_matches(t, kind)),
                    0 <= i <= kids@.len(),
                    forall|j: int| 0 <= j < i ==> !elem_contains(#[trigger] kids@[j], kind),
                decreases kids@.len() - i,
            {
                proof {
                    assert(*kids == element.content->Children_0);
                    assert(decreases_to!(element.content => element.content->Children_0));
                    assert(decreases_to!(*kids => kids@));
                    assert(decreases_to!(kids@ => kids@[i as int]));
                }
                if contains_item(&kids[i], kind) {
                    assert(0 <= i < kids@.len() && elem_contains(kids@[i as int], kind));
                    assert(elem_contains(*element, kind));
                    return true;
                }
                i += 1;
            }
            false
        },
        _ => false,
    }
}

/// A top-level child that is the scrolling strip of tabs: not itself a tab
/// or a close button, but holding a tab somewhere inside.
pub open spec fn is_strip(e: ComputedElement) -> bool {
    &&& !(e.item_type matches Some(UIItemType::TabBar(TabBarItem::Tab { .. })))
    &&& !(e.item_type matches Some(UIItemType::CloseTab(_)))
    &&& elem_contains(e, ItemKind::AnyTab)
}

pub fn is_scrolling_tab_strip(element: &ComputedElement) -> (r: bool)
    ensures
        r == is_strip(*element),
{
    match &element.item_type {
        Some(UIItemType::TabBar(TabBarItem::Tab { .. })) | Some(UIItemType::CloseTab(_)) => false,
        _ => contains_item(element, ItemKind::AnyTab),
    }
}

/// Which top-level child a query looks for.
#[derive(Debug, Clone, Copy, PartialEq, Eq, Structural)]
pub enum ChildQuery {
    /// The scrolling strip of tabs.
    TabStrip,
    /// The child holding the new-tab button.
    NewTabButton,
}

pub open spec fn child_matches(e: ComputedElement, q: ChildQuery) -> bool {
    match q {
        ChildQuery::TabStrip => is_strip(e),
        ChildQuery::NewTabButton => elem_contains(e, ItemKind::NewTabButton),
    }
}

/// The top-level children of `e` (none for text or drawings).
pub open spec fn kids_of(e: ComputedElement) -> Seq<ComputedElement> {
    match e.content {
        ComputedElementContent::Children(kids) => kids@,
        _ => Seq::empty(),
    }
}

/// `r` is the index of the first top-level child of `e` that the query
/// matches, `None` when no child matches.
pub open spec fn first_child_where(e: ComputedElement, q: ChildQuery, r: Option<usize>) -> bool {
    match r {
        Some(i) => {
            &&& i < kids_of(e).len()
            &&& child_matches(kids_of(e)[i as int], q)
            &&& forall|j: int| 0 <= j < i ==> !child_matches(#[trigger] kids_of(e)[j], q)
        },
        None => forall|j: int| 0 <= j < kids_of(e).len() ==> !child_matches(#[trigger] kids_of(e)[j], q),
    }
}

/// Index of the top-level child that holds the scrolling tabs.
pub fn scrolling_tab_strip_index(computed: &ComputedElement) -> (r: Option<usize>)
    ensures
        first_child_where(*computed, ChildQuery::TabStrip, r),
{
    match &computed.content {
        ComputedElementContent::Children(kids) => {
            let mut i: usize = 0;
            while i < kids.len()
                invariant
                    computed.content == ComputedElementContent::Children(*kids),
                    0 <= i <= kids@.len(),
                    forall|j: int| 0 <= j < i ==> !child_matches(#[trigger] kids@[j], ChildQuery::TabStrip),
                decreases kids@.len() - i,
            {
                if is_scrolling_tab_strip(&kids[i]) {
                    assert(child_matches(kids@[i as int], ChildQuery::TabStrip));
                    return Some(i);
                }
                i += 1;
            }
            None
        },
        _ => None,
    }
}

/// Index of the top-level child that holds the new-tab button.
pub fn new_tab_button_index(computed: &ComputedElement) -> (r: Option<usize>)
    ensures
        first_child_where(*computed, ChildQuery::NewTabButton, r),
{
    match &computed.content {
        ComputedElementContent::Children(kids) => {
            let mut i: usize = 0;
            while i < kids.len()
                invariant
                    computed.content == ComputedElementContent::Children(*kids),
                    0 <= i <= kids@.len(),
                    forall|j: int|
                        0 <= j < i ==> !child_matches(#[trigger] kids@[j], ChildQuery::NewTabButton),
                decreases kids@.len() - i,
            {
                if contains_item(&kids[i], ItemKind::NewTabButton) {
                    assert(child_matches(kids@[i as int], ChildQuery::NewTabButton));
                    return Some(i);
                }
                i += 1;
            }
            None
        },
        _ => None,
    }
}

/// Painting the fancy tab bar before it has been built.
#[derive(Debug, Clone, Copy, PartialEq, Eq, Structural)]
pub enum TabBarPaintError {
    NotBuilt,
}

impl TabBarPaintError {
    /// The error's text.
    pub fn message(&self) -> (r: String)
        ensures
            r@ == "paint_fancy_tab_bar called but fancy_tab_bar is None"@,
    {
        match self {
            TabBarPaintError::NotBuilt => "paint_fancy_tab_bar called but fancy_tab_bar is None".to_owned(),
        }
    }
}

/// The window's cached fancy tab bar.
#[derive(Debug)]
pub struct TabBarCache {
    pub fancy_tab_bar: Option<ComputedElement>,
}

impl TabBarCache {
    /// Drop the cached bar so that the next paint rebuilds it.
    pub fn invalidate_fancy_tab_bar(&mut self)
        ensures
            final(self).fancy_tab_bar is None,
    {
        self.fancy_tab_bar = None;
    }

    /// The bar to paint: an error when it has not been built.
    pub fn paint_fancy_tab_bar(&self) -> (r: Result<&ComputedElement, TabBarPaintError>)
        ensures
            match self.fancy_tab_bar {
                Some(e) => r == Ok::<&ComputedElement, TabBarPaintError>(&e),
                None => r == Err::<&ComputedElement, TabBarPaintError>(TabBarPaintError::NotBuilt),
            },
    {
        match &self.fancy_tab_bar {
            Some(e) => Ok(e),
            None => Err(TabBarPaintError::NotBuilt),
        }
    }
}

} // verus!
