use wezterm_gpui::find::{find_in_lines, try_find_in_lines, SearchHit};

fn lines(v: &[&str]) -> Vec<String> {
    v.iter().map(|s| s.to_string()).collect()
}

#[test]
fn hits_are_listed_row_by_row() {
    let l = lines(&["abcabc", "xx", "zabc"]);
    let hits = find_in_lines(10, &l, "abc", true);
    assert_eq!(
        hits,
        vec![
            SearchHit { y: 10, x: 0, len: 3 },
            SearchHit { y: 10, x: 3, len: 3 },
            SearchHit { y: 12, x: 1, len: 3 },
        ]
    );
}

#[test]
fn empty_query_finds_nothing() {
    let l = lines(&["abc"]);
    assert!(find_in_lines(0, &l, "", false).is_empty());
}

#[test]
fn hits_do_not_overlap_and_count_cells_in_chars() {
    let l = lines(&["ééaaaa"]);
    let hits = find_in_lines(0, &l, "aa", true);
    assert_eq!(hits, vec![SearchHit { y: 0, x: 2, len: 2 }, SearchHit { y: 0, x: 4, len: 2 }]);
}

#[test]
fn case_insensitive_search() {
    let l = lines(&["Foo fOO"]);
    let hits = find_in_lines(-2, &l, "foo", false);
    assert_eq!(hits, vec![SearchHit { y: -2, x: 0, len: 3 }, SearchHit { y: -2, x: 4, len: 3 }]);
    assert!(find_in_lines(-2, &l, "foo", true).is_empty());
}

#[test]
fn search_stops_at_four_thousand_hits() {
    let l = lines(&[&"a".repeat(3000), &"a".repeat(3000)]);
    let hits = find_in_lines(0, &l, "a", true);
    assert_eq!(hits.len(), 4000);
    assert_eq!(hits[3999], SearchHit { y: 1, x: 999, len: 1 });
}

#[test]
fn lowercase_that_grows_would_slice_off_a_boundary() {
    // 'Ⱥ' (2 bytes) lowercases to 'ⱥ' (3 bytes): the offset found in the
    // lowercased text falls inside the 'é' of the line.
    let l = lines(&["ȺȺxé"]);
    assert_eq!(try_find_in_lines(0, &l, "x", false), None);
    assert_eq!(try_find_in_lines(0, &l, "x", true), Some(vec![SearchHit { y: 0, x: 2, len: 1 }]));
    // One 'Ⱥ' shifts the hit to the end of the line, which is a boundary.
    let l = lines(&["Ⱥx"]);
    assert_eq!(try_find_in_lines(0, &l, "x", false), Some(vec![SearchHit { y: 0, x: 2, len: 1 }]));
}
