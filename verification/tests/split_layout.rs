use wezterm_gpui::split_layout::{LayoutNode, PaneDir, SplitAxis, SplitLayout};

#[test]
fn split_then_prune_second_collapses() {
    let mut layout = SplitLayout::leaf("a");
    layout.split(SplitAxis::Horizontal, "b", 1);
    assert_eq!(layout.pane_count(), 2);
    assert_eq!(layout.active_pane(), Some(&"b"));
    assert!(!layout.remove_pane(&"b"));
    assert_eq!(layout.panes(), &["a"]);
    assert_eq!(layout.root(), &LayoutNode::Leaf(0));
}

#[test]
fn split_then_prune_first_keeps_second() {
    let mut layout = SplitLayout::leaf("a");
    layout.split(SplitAxis::Vertical, "b", 1);
    assert!(!layout.remove_pane(&"a"));
    assert_eq!(layout.panes(), &["b"]);
    assert_eq!(layout.active_pane(), Some(&"b"));
    assert_eq!(layout.root(), &LayoutNode::Leaf(0));
}

#[test]
fn nested_split_prune_inner() {
    let mut layout = SplitLayout::leaf("a");
    layout.split(SplitAxis::Horizontal, "b", 1);
    layout.split(SplitAxis::Vertical, "c", 2);
    // a | (b / c), active = c
    assert_eq!(layout.pane_count(), 3);
    assert!(!layout.remove_pane(&"c"));
    assert_eq!(layout.panes(), &["a", "b"]);
    match layout.root() {
        LayoutNode::Split {
            axis: SplitAxis::Horizontal,
            first,
            second,
            ..
        } => {
            assert_eq!(**first, LayoutNode::Leaf(0));
            assert_eq!(**second, LayoutNode::Leaf(1));
        }
        other => panic!("expected H split, got {other:?}"),
    }
}

#[test]
fn remove_last_leaf_empties() {
    let mut layout = SplitLayout::leaf("a");
    assert!(layout.remove_pane(&"a"));
    assert!(layout.panes().is_empty());
}

#[test]
fn set_active_then_split_that_leaf() {
    let mut layout = SplitLayout::leaf("a");
    layout.split(SplitAxis::Horizontal, "b", 1);
    assert!(layout.set_active_pane(&"a"));
    layout.split(SplitAxis::Vertical, "c", 2);
    // (a / c) | b
    assert_eq!(layout.panes(), &["a", "b", "c"]);
    assert_eq!(layout.active_pane(), Some(&"c"));
    match layout.root() {
        LayoutNode::Split {
            axis: SplitAxis::Horizontal,
            first,
            second,
            ..
        } => {
            assert_eq!(**second, LayoutNode::Leaf(1));
            match first.as_ref() {
                LayoutNode::Split {
                    axis: SplitAxis::Vertical,
                    first: top,
                    second: bot,
                    ..
                } => {
                    assert_eq!(**top, LayoutNode::Leaf(0));
                    assert_eq!(**bot, LayoutNode::Leaf(2));
                }
                other => panic!("expected V split, got {other:?}"),
            }
        }
        other => panic!("expected H split, got {other:?}"),
    }
}

#[test]
fn activate_direction_horizontal() {
    let mut layout = SplitLayout::leaf("a");
    layout.split(SplitAxis::Horizontal, "b", 1);
    assert_eq!(layout.active_pane(), Some(&"b"));
    assert!(layout.activate_direction(PaneDir::Left));
    assert_eq!(layout.active_pane(), Some(&"a"));
    assert!(!layout.activate_direction(PaneDir::Left));
    assert!(layout.activate_direction(PaneDir::Right));
    assert_eq!(layout.active_pane(), Some(&"b"));
    assert!(!layout.activate_direction(PaneDir::Up));
    assert!(!layout.activate_direction(PaneDir::Down));
}

#[test]
fn activate_direction_nested_picks_overlapping_neighbor() {
    let mut layout = SplitLayout::leaf("a");
    layout.split(SplitAxis::Horizontal, "b", 1);
    layout.split(SplitAxis::Vertical, "c", 2);
    // a | (b / c), active = c
    assert!(layout.activate_direction(PaneDir::Up));
    assert_eq!(layout.active_pane(), Some(&"b"));
    assert!(layout.activate_direction(PaneDir::Down));
    assert_eq!(layout.active_pane(), Some(&"c"));
    assert!(layout.activate_direction(PaneDir::Left));
    assert_eq!(layout.active_pane(), Some(&"a"));
    // a is full height; b and c share the edge equally → smaller index (b)
    assert!(layout.activate_direction(PaneDir::Right));
    assert_eq!(layout.active_pane(), Some(&"b"));
}

#[test]
fn rotate_clockwise_moves_last_leaf_to_first() {
    let mut layout = SplitLayout::leaf("a");
    layout.split(SplitAxis::Horizontal, "b", 1);
    layout.split(SplitAxis::Vertical, "c", 2);
    // leaves preorder: a, b, c
    layout.rotate(true);
    assert_eq!(layout.panes(), &["c", "a", "b"]);
    assert_eq!(layout.active_pane(), Some(&"c"));
    layout.rotate(false);
    assert_eq!(layout.panes(), &["a", "b", "c"]);
    assert_eq!(layout.active_pane(), Some(&"c"));
}

#[test]
fn ancestor_split_picks_nearest_matching_axis() {
    let mut layout = SplitLayout::leaf("a");
    layout.split(SplitAxis::Horizontal, "b", 1);
    layout.split(SplitAxis::Vertical, "c", 2);
    // a | (b / c), active = c
    assert_eq!(
        layout.ancestor_split(SplitAxis::Vertical),
        Some(2),
        "Up/Down hits the inner V split"
    );
    assert_eq!(
        layout.ancestor_split(SplitAxis::Horizontal),
        Some(1),
        "Left/Right walks up to the outer H split"
    );
    assert!(layout.set_active_pane(&"a"));
    assert_eq!(layout.ancestor_split(SplitAxis::Horizontal), Some(1));
    assert_eq!(
        layout.ancestor_split(SplitAxis::Vertical),
        None,
        "a has no V ancestor"
    );
}

#[test]
fn zoom_requires_two_panes_and_clears_on_split() {
    let mut layout = SplitLayout::leaf("a");
    layout.toggle_zoom();
    assert!(!layout.is_zoomed());
    layout.split(SplitAxis::Horizontal, "b", 1);
    layout.toggle_zoom();
    assert!(layout.is_zoomed());
    layout.split(SplitAxis::Vertical, "c", 2);
    assert!(!layout.is_zoomed());
    layout.toggle_zoom();
    assert!(layout.is_zoomed());
    assert!(!layout.remove_pane(&"c"));
    assert!(layout.is_zoomed());
    assert!(!layout.remove_pane(&"b"));
    assert!(!layout.is_zoomed());
}

#[test]
fn extract_pane_returns_taken_and_empty_flag() {
    let mut layout = SplitLayout::leaf("a");
    layout.split(SplitAxis::Horizontal, "b", 1);
    let (taken, empty) = layout.extract_pane(&"b").expect("b");
    assert_eq!(taken, "b");
    assert!(!empty);
    assert_eq!(layout.panes(), &["a"]);
    let (taken, empty) = layout.extract_pane(&"a").expect("a");
    assert_eq!(taken, "a");
    assert!(empty);
    assert!(layout.panes().is_empty());
}

#[test]
fn swap_active_keep_focus_follows_original() {
    let mut layout = SplitLayout::leaf("a");
    layout.split(SplitAxis::Horizontal, "b", 1);
    assert_eq!(layout.active_pane(), Some(&"b"));
    layout.swap_active_with(0, true);
    assert_eq!(layout.active_pane(), Some(&"b"));
    assert_eq!(layout.panes(), &["b", "a"]);
    layout.swap_active_with(1, false);
    assert_eq!(layout.active_pane(), Some(&"a"));
    assert_eq!(layout.panes(), &["a", "b"]);
}

#[test]
fn owned_and_numeric_panes_are_looked_up_by_value() {
    let mut layout = SplitLayout::leaf(String::from("left"));
    layout.split(SplitAxis::Horizontal, String::from("right"), 1);
    assert!(layout.contains(&String::from("left")));
    assert!(!layout.contains(&String::from("middle")));
    assert!(layout.set_active_pane(&String::from("left")));
    assert_eq!(layout.active_index(), 0);

    let mut ids = SplitLayout::leaf(7u64);
    ids.split(SplitAxis::Vertical, 9u64, 1);
    assert!(!ids.remove_pane(&7u64));
    assert_eq!(ids.panes(), &[9u64]);
    assert_eq!(ids.active_pane(), Some(&9u64));
}

#[test]
fn activate_direction_moves_to_the_reported_neighbor() {
    let mut layout = SplitLayout::leaf("a");
    layout.split(SplitAxis::Horizontal, "b", 1);
    layout.split(SplitAxis::Vertical, "c", 2);
    // a | (b / c), focus on c
    let up = layout.neighbor_in(PaneDir::Up);
    assert_eq!(up, Some(1));
    assert!(layout.activate_direction(PaneDir::Up));
    assert_eq!(layout.active_index(), 1);
    assert_eq!(layout.neighbor_in(PaneDir::Right), None);
    assert!(!layout.activate_direction(PaneDir::Right));
    assert_eq!(layout.active_index(), 1);
    assert_eq!(layout.neighbor_in(PaneDir::Left), Some(0));
    assert!(layout.activate_direction(PaneDir::Left));
    assert_eq!(layout.active_pane(), Some(&"a"));
}
