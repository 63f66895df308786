use wezterm_gpui::selection::{CellPos, SelRange};
use wezterm_gpui::selection_text::{selection_text, LogicalRows, RowCell};

fn row(text: &str, wraps: bool) -> Vec<RowCell> {
    let n = text.chars().count();
    text.chars()
        .enumerate()
        .map(|(i, c)| RowCell { text: c.to_string(), wrapped: wraps && i + 1 == n })
        .collect()
}

fn sel(y0: isize, x0: usize, y1: isize, x1: usize) -> SelRange {
    SelRange { start: CellPos { y: y0, x: x0 }, end: CellPos { y: y1, x: x1 } }
}

#[test]
fn single_row_selection_is_trimmed() {
    let lines = vec![LogicalRows { first_row: 3, rows: vec![row("hello   ", false)] }];
    assert_eq!(selection_text(sel(3, 1, 3, 6), &lines), "ello");
    assert_eq!(selection_text(sel(3, 6, 3, 1), &lines), "ello");
}

#[test]
fn logical_lines_are_joined_by_newlines() {
    let lines = vec![
        LogicalRows { first_row: 0, rows: vec![row("one  ", false)] },
        LogicalRows { first_row: 1, rows: vec![row("two", false)] },
    ];
    assert_eq!(selection_text(sel(0, 0, 1, 2), &lines), "one\ntwo");
}

#[test]
fn wrapped_rows_run_together() {
    let lines = vec![LogicalRows { first_row: 0, rows: vec![row("abcd", true), row("ef  ", false)] }];
    assert_eq!(selection_text(sel(0, 2, 1, 9), &lines), "cdef");
    // only the first physical row selected: its last cell wraps, so a
    // following logical line gets no newline
    let lines = vec![
        LogicalRows { first_row: 0, rows: vec![row("abcd", true)] },
        LogicalRows { first_row: 1, rows: vec![row("xy", false)] },
    ];
    assert_eq!(selection_text(sel(0, 0, 1, 1), &lines), "abcdxy");
}

#[test]
fn rows_outside_the_selection_are_skipped() {
    let lines = vec![LogicalRows { first_row: 0, rows: vec![row("aa", true), row("bb", true), row("cc", false)] }];
    assert_eq!(selection_text(sel(1, 0, 1, 1), &lines), "bb");
}
