use wezterm_gpui::tab_strip::{
    contains_item, is_scrolling_tab_strip, new_tab_button_index, scrolling_tab_strip_index,
    ComputedElement, ComputedElementContent, ItemKind, TabBarCache, TabBarItem, TabBarPaintError,
    UIItemType,
};

fn leaf(item: Option<UIItemType>) -> ComputedElement {
    ComputedElement { item_type: item, content: ComputedElementContent::Text }
}

fn group(item: Option<UIItemType>, kids: Vec<ComputedElement>) -> ComputedElement {
    ComputedElement { item_type: item, content: ComputedElementContent::Children(kids) }
}

fn tab(i: usize, active: bool) -> ComputedElement {
    group(
        Some(UIItemType::TabBar(TabBarItem::Tab { tab_idx: i, active })),
        vec![leaf(Some(UIItemType::CloseTab(i)))],
    )
}

fn bar() -> ComputedElement {
    group(
        None,
        vec![
            leaf(Some(UIItemType::TabBar(TabBarItem::LeftStatus))),
            group(None, vec![tab(0, false), tab(1, true)]),
            group(None, vec![leaf(Some(UIItemType::TabBar(TabBarItem::NewTabButton)))]),
            leaf(Some(UIItemType::TabBar(TabBarItem::WindowButton(0)))),
        ],
    )
}

#[test]
fn strip_and_plus_button_are_found_among_top_children() {
    let b = bar();
    assert_eq!(scrolling_tab_strip_index(&b), Some(1));
    assert_eq!(new_tab_button_index(&b), Some(2));
    assert!(contains_item(&b, ItemKind::WindowButton));
    assert!(contains_item(&b, ItemKind::AnyTab));
}

#[test]
fn a_tab_itself_is_not_the_strip() {
    assert!(!is_scrolling_tab_strip(&tab(0, true)));
    assert!(!is_scrolling_tab_strip(&leaf(Some(UIItemType::CloseTab(0)))));
    assert!(is_scrolling_tab_strip(&group(None, vec![tab(0, true)])));
    let no_tabs = group(None, vec![leaf(None), leaf(Some(UIItemType::Split))]);
    assert_eq!(scrolling_tab_strip_index(&no_tabs), None);
    assert_eq!(new_tab_button_index(&no_tabs), None);
    assert_eq!(scrolling_tab_strip_index(&leaf(None)), None);
}

#[test]
fn painting_needs_a_built_bar() {
    let mut cache = TabBarCache { fancy_tab_bar: Some(bar()) };
    assert!(cache.paint_fancy_tab_bar().is_ok());
    cache.invalidate_fancy_tab_bar();
    assert!(cache.fancy_tab_bar.is_none());
    assert_eq!(cache.paint_fancy_tab_bar().err(), Some(TabBarPaintError::NotBuilt));
    assert_eq!(
        cache.paint_fancy_tab_bar().err().map(|e| e.message()),
        Some("paint_fancy_tab_bar called but fancy_tab_bar is None".to_string())
    );
}
