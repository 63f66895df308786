use wezterm_gpui::find::SearchHit;
use wezterm_gpui::pane_search::{copy_hit_text, hit_text, needs_scroll, paint_top, row_hits, PaneSearch, SearchHighlight};

fn hit(y: isize, x: usize, len: usize) -> SearchHit {
    SearchHit { y, x, len }
}

#[test]
fn new_search_clamps_current_and_scrolls_to_it() {
    let (s, jump) = PaneSearch::new("ab".into(), false, vec![hit(1, 0, 2), hit(7, 3, 2)], 5);
    assert_eq!(jump, Some(7));
    assert_eq!(s.status(), ("ab".to_string(), 2, 2, false));
    let (s, jump) = PaneSearch::new("zz".into(), true, Vec::new(), 3);
    assert_eq!(jump, None);
    assert_eq!(s.status(), ("zz".to_string(), 0, 0, true));
}

#[test]
fn stepping_wraps_round_the_hits() {
    let (mut s, _) = PaneSearch::new("a".into(), false, vec![hit(1, 0, 1), hit(2, 0, 1), hit(3, 0, 1)], 0);
    assert_eq!(s.step(-1), Some(3));
    assert_eq!(s.step(1), Some(1));
    assert_eq!(s.step(1), Some(2));
    assert_eq!(s.current_hit(), Some(hit(2, 0, 1)));
    let (mut e, _) = PaneSearch::new("a".into(), false, Vec::new(), 0);
    assert_eq!(e.step(1), None);
}

#[test]
fn highlights_cover_only_visible_rows() {
    let (s, _) = PaneSearch::new("q".into(), false, vec![hit(1, 0, 1), hit(5, 2, 0), hit(9, 4, 3)], 1);
    assert_eq!(
        s.highlights(4, 5),
        vec![SearchHighlight { vis_row: 1, col: 2, len: 1, current: true }]
    );
    assert_eq!(s.highlights(0, 10).len(), 3);
    let (empty_query, _) = PaneSearch::new(String::new(), false, vec![hit(1, 0, 1)], 0);
    assert!(empty_query.highlights(0, 10).is_empty());
}

#[test]
fn paint_top_and_scrolling() {

    assert_eq!(paint_top(None, 100, 0), 100);
    assert_eq!(paint_top(Some(40), 100, 0), 40);
    assert_eq!(paint_top(Some(-5), 100, 0), 0);
    assert_eq!(paint_top(Some(120), 100, 0), 100);
    assert!(!needs_scroll(42, 40, 24));
    assert!(needs_scroll(64, 40, 24));
    assert!(needs_scroll(39, 40, 24));
}

#[test]
fn hit_text_and_what_gets_copied() {

    assert_eq!(hit_text("héllo world", 1, 4), Some("éllo".to_string()));
    assert_eq!(hit_text("abc", 2, 0), Some("c".to_string()));
    assert_eq!(hit_text("abc", 3, 2), None);
    assert_eq!(copy_hit_text("q", Some("hit".into())), Some("hit".to_string()));
    assert_eq!(copy_hit_text("q", Some(String::new())), Some("q".to_string()));
    assert_eq!(copy_hit_text("q", None), Some("q".to_string()));
    assert_eq!(copy_hit_text("", Some("hit".into())), None);
}

#[test]
fn row_hits_stop_at_the_limit() {

    let rows: Vec<String> = vec!["Foo  ".into(), "bar".into(), "xfoo".into(), "FOO".into()];
    assert_eq!(row_hits(5, &rows, "foo", 10), vec![(5, "Foo".to_string()), (7, "xfoo".to_string()), (8, "FOO".to_string())]);
    assert_eq!(row_hits(5, &rows, "foo", 2), vec![(5, "Foo".to_string()), (7, "xfoo".to_string())]);
    assert_eq!(row_hits(5, &rows, "foo", 0), vec![(5, "Foo".to_string())]);
    assert!(row_hits(5, &rows, "", 10).is_empty());
}
