use wezterm_gpui::pane_text::{
    lines_of, pane_title, quick_select_items, search_seed_items, tokens_of, trimmed_end, visible_plain_text,
};
use wezterm_gpui::picker::PickerItem;

#[test]
fn trim_and_join_visible_rows() {
    assert_eq!(trimmed_end("ab \t\u{3000}"), "ab");
    assert_eq!(trimmed_end("   "), "");
    let rows = vec!["$ ls   ".to_string(), "".to_string(), "a.txt  b.txt ".to_string()];
    assert_eq!(visible_plain_text(&rows), "$ ls\n\na.txt  b.txt");
    assert_eq!(visible_plain_text(&Vec::new()), "");
}

#[test]
fn lines_follow_str_lines() {
    for s in ["", "a", "a\n", "a\nb", "a\r\nb\r\n", "\n\n", "x\r", "a\n\nb"] {
        let want: Vec<String> = s.lines().map(|l| l.to_string()).collect();
        assert_eq!(lines_of(s), want, "{s:?}");
    }
}

#[test]
fn tokens_follow_split_whitespace() {
    for s in ["", "  a  b ", "one\ttwo\nthree", "\u{00a0}x\u{2003}y"] {
        let want: Vec<String> = s.split_whitespace().map(|l| l.to_string()).collect();
        assert_eq!(tokens_of(s), want, "{s:?}");
    }
}

#[test]
fn pane_title_falls_back_for_generic_titles() {
    assert_eq!(pane_title("", "cmd"), "cmd");
    assert_eq!(pane_title("WezTerm", "cmd"), "cmd");
    assert_eq!(pane_title("vim", "cmd"), "vim");
    assert_eq!(pane_title("wezterm2", "cmd"), "wezterm2");
}

#[test]
fn search_seed_skips_blank_lines_and_numbers_from_one() {
    let items = search_seed_items("first\n   \nthird");
    assert_eq!(
        items,
        vec![
            PickerItem { id: "search:0:first".into(), title: "first".into(), subtitle: "Visible line 1".into() },
            PickerItem { id: "search:2:third".into(), title: "third".into(), subtitle: "Visible line 3".into() },
        ]
    );
    let many: String = (0..300).map(|i| format!("l{i}\n")).collect();
    assert_eq!(search_seed_items(&many).len(), 200);
}

#[test]
fn quick_select_picker_takes_distinct_unwrapped_tokens() {
    let items = quick_select_items("see (https://x.io), \"abc\" 'long-token' long-token ab");
    let titles: Vec<&str> = items.iter().map(|i| i.title.as_str()).collect();
    assert_eq!(titles, vec!["https://x.io", "long-token"]);
    assert_eq!(items[0].id, "qsel:https://x.io");
    assert_eq!(items[0].subtitle, "Copy");
    let many: String = (0..200).map(|i| format!("tok{i:03} ")).collect();
    assert_eq!(quick_select_items(&many).len(), 80);
}
