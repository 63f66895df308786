use wezterm_gpui::quick_select::{quick_select_matches, HintMatch};

fn lines(v: &[&str]) -> Vec<String> {
    v.iter().map(|s| s.to_string()).collect()
}

#[test]
fn diff_header_and_sha_capture_their_groups() {
    let h = "0123456789abcdef0123456789abcdef0123456789abcdef0123456789abcdef";
    let l = lines(&["+++ b/src/main.rs", &format!("sha256:{h}")]);
    let m = quick_select_matches(0, &l, "asdf");
    assert!(m.iter().any(|x| x.y == 0 && x.x == 6 && x.text == "src/main.rs"));
    assert!(m.iter().any(|x| x.y == 1 && x.x == 7 && x.text == h));
}

#[test]
fn url_and_number_are_labelled_in_row_order() {
    let l = lines(&["see https://example.com/x now", "id 12345"]);
    let m = quick_select_matches(5, &l, "asdf");
    let got: Vec<(String, isize, usize, String)> =
        m.into_iter().map(|h: HintMatch| (h.label, h.y, h.x, h.text)).collect();
    assert_eq!(
        got,
        vec![
            ("a".to_string(), 5, 4, "https://example.com/x".to_string()),
            ("s".to_string(), 5, 10, "//example.com/x".to_string()),
            ("d".to_string(), 6, 3, "12345".to_string()),
        ]
    );
}

#[test]
fn markdown_link_reports_its_target_group() {
    let l = lines(&["[docs](https://wezterm.org)"]);
    let m = quick_select_matches(0, &l, "a");
    assert!(m.iter().any(|h| h.text == "https://wezterm.org" && h.x == 7));
}

#[test]
fn short_matches_are_skipped_and_duplicates_dropped() {
    let l = lines(&["0x1 0x1234"]);
    let m = quick_select_matches(0, &l, "ab");
    let texts: Vec<&str> = m.iter().map(|h| h.text.as_str()).collect();
    assert!(!texts.contains(&"0x1"));
    assert_eq!(texts.iter().filter(|t| **t == "0x1234").count(), 1);
}

#[test]
fn nothing_to_select_gives_no_matches() {
    let l = lines(&["hi"]);
    assert!(quick_select_matches(0, &l, "asdf").is_empty());
}
