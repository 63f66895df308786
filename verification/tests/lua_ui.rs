use wezterm_gpui::lua_ui::{active_after_close, format_tab_title, show_tab_bar};

#[test]
fn title_no_index_truncates() {
    assert_eq!(
        format_tab_title(0, "abcdefghijklmnopqrstuvwxyz0123456789", false, false, 32),
        "abcdefghijklmnopqrstuvwxyz01234…"
    );
    assert_eq!(format_tab_title(0, "cmd", false, false, 32), "cmd");
}

#[test]
fn title_index_one_based() {
    assert_eq!(
        format_tab_title(0, "Command Prompt", true, false, 32),
        "1: Command Prompt"
    );
    assert_eq!(
        format_tab_title(1, "Windows PowerShell", true, true, 32),
        "1: Windows PowerShell"
    );
}

#[test]
fn hide_tab_bar_matches_lua() {
    assert!(show_tab_bar(1, true, false));
    assert!(!show_tab_bar(1, true, true));
    assert!(show_tab_bar(2, true, true));
    assert!(!show_tab_bar(2, false, false));
}

#[test]
fn last_active_when_closing_active() {
    // [A,B,C] active C last A → close C → A
    assert_eq!(active_after_close(2, Some(0), 2, 3, true), 0);
    // [A,B,C] active A last C → close A → C (index 1 after removal)
    assert_eq!(active_after_close(0, Some(2), 0, 3, true), 1);
    // [A,B,C] active B last A → close B → A
    assert_eq!(active_after_close(1, Some(0), 1, 3, true), 0);
    // without the flag, closing last tab selects the new last
    assert_eq!(active_after_close(2, Some(0), 2, 3, false), 1);
    // closing a non-active tab left of active
    assert_eq!(active_after_close(2, Some(0), 0, 3, true), 1);
}

#[test]
fn title_clips_to_one_cell_and_counts_large_indices() {
    assert_eq!(format_tab_title(0, "abc", false, false, 0), "…");
    assert_eq!(format_tab_title(0, "abc", false, false, 1), "…");
    assert_eq!(format_tab_title(0, "abc", false, false, 2), "a…");
    assert_eq!(format_tab_title(1234, "x", true, true, 32), "1234: x");
    assert_eq!(format_tab_title(9, "x", true, false, 32), "10: x");
    assert_eq!(format_tab_title(0, "", false, false, 5), "");
}

#[test]
fn close_edge_cases() {
    assert_eq!(active_after_close(0, None, 0, 1, true), 0);
    assert_eq!(active_after_close(0, None, 0, 0, true), 0);
    // previous focus that is the closed tab itself is ignored
    assert_eq!(active_after_close(1, Some(1), 1, 3, true), 1);
    // previous focus out of range is ignored
    assert_eq!(active_after_close(1, Some(7), 1, 3, true), 1);
    // closing a tab right of the focus keeps it
    assert_eq!(active_after_close(0, None, 2, 3, false), 0);
}

#[test]
fn wide_title_is_clipped_by_cells() {
    // Each of these characters takes two terminal cells.
    assert_eq!(format_tab_title(0, "日本語", false, false, 4), "日…");
    assert_eq!(format_tab_title(0, "日本語", false, false, 6), "日本語");
    assert_eq!(format_tab_title(0, "日本語", true, false, 6), "1: 日…");
}

#[test]
fn width_one_leaves_only_the_ellipsis() {
    assert_eq!(format_tab_title(0, "abc", false, false, 1), "…");
    assert_eq!(format_tab_title(0, "abc", false, false, 0), "…");
    assert_eq!(format_tab_title(0, "a", false, false, 0), "a");
}
