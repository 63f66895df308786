use wezterm_gpui::cycle::{next_window, next_workspace, wrap_index};
use wezterm_gpui::tab_stack::TabStack;

#[test]
fn wrap_index_goes_round_both_ends() {
    assert_eq!(wrap_index(0, -1, 3), 2);
    assert_eq!(wrap_index(2, 1, 3), 0);
    assert_eq!(wrap_index(1, 7, 3), 2);
    assert_eq!(wrap_index(0, -7, 3), 2);
    assert_eq!(wrap_index(5, 1, 0), 0);
    assert_eq!(wrap_index(wrap_index(1, 5, 4), -5, 4), 1);
}

#[test]
fn push_activates_the_new_tab_and_remembers_the_old() {
    let mut s = TabStack::new();
    s.push("a");
    assert_eq!(s.active_index(), 0);
    assert_eq!(s.last_active(), None);
    s.push("b");
    s.push("c");
    assert_eq!(s.active_index(), 2);
    assert_eq!(s.last_active(), Some(1));
    assert_eq!(s.active_tab(), Some(&"c"));
}

#[test]
fn activate_and_activate_last() {
    let mut s = TabStack::new();
    for t in ["a", "b", "c"] {
        s.push(t);
    }
    s.activate(0);
    assert_eq!((s.active_index(), s.last_active()), (0, Some(2)));
    s.activate(0);
    assert_eq!((s.active_index(), s.last_active()), (0, Some(2)));
    s.activate(9);
    assert_eq!((s.active_index(), s.last_active()), (0, Some(2)));
    s.activate_last();
    assert_eq!((s.active_index(), s.last_active()), (2, Some(0)));
}

#[test]
fn closing_the_active_tab_returns_to_the_last() {
    let mut s = TabStack::new();
    for t in ["a", "b", "c"] {
        s.push(t);
    }
    s.activate(0);
    s.activate(2);
    // active c, last a: closing c goes back to a
    assert_eq!(s.remove_at(2, true), (Some("c"), false));
    assert_eq!(s.active_tab(), Some(&"a"));
    assert_eq!(s.last_active(), None);
    assert_eq!(s.tabs(), &vec!["a", "b"]);
}

#[test]
fn removing_out_of_range_or_the_last_tab() {
    let mut s = TabStack::new();
    s.push(1u8);
    assert_eq!(s.remove_at(3, true), (None, false));
    assert_eq!(s.remove_at(0, true), (Some(1), true));
    assert_eq!(s.len(), 0);
    assert_eq!(s.active_tab(), None);
    assert_eq!(s.remove_at(0, false), (None, true));
}

#[test]
fn closing_left_of_active_shifts_it() {
    let mut s = TabStack::new();
    for t in ["a", "b", "c"] {
        s.push(t);
    }
    // active c, last b; close a
    assert_eq!(s.remove_at(0, false), (Some("a"), false));
    assert_eq!(s.active_tab(), Some(&"c"));
    assert_eq!(s.last_active(), Some(0));
}

#[test]
fn workspace_steps_wrap_and_skip_the_current_one() {
    let names: Vec<String> = ["default", "work", "play"].iter().map(|s| s.to_string()).collect();
    assert_eq!(next_workspace(&names, "default", 1), Some(1));
    assert_eq!(next_workspace(&names, "default", -1), Some(2));
    assert_eq!(next_workspace(&names, "play", 1), Some(0));
    // An unknown current workspace steps from the first one.
    assert_eq!(next_workspace(&names, "other", 1), Some(1));
    assert_eq!(next_workspace(&names, "work", 3), None);
    let one = vec!["default".to_string()];
    assert_eq!(next_workspace(&one, "default", 1), None);
}

#[test]
fn window_steps_wrap() {
    assert_eq!(next_window(0, -1, 3), Some(2));
    assert_eq!(next_window(2, 1, 3), Some(0));
    assert_eq!(next_window(0, 1, 0), None);
}
