use wezterm_gpui::selection::{union_range, CellPos, SelMode, SelRange, Selection};

fn pos(y: isize, x: usize) -> CellPos {
    CellPos { y, x }
}

#[test]
fn normalize_orders_by_row_then_column() {
    let r = SelRange { start: pos(3, 1), end: pos(1, 9) }.normalize();
    assert_eq!(r, SelRange { start: pos(1, 9), end: pos(3, 1) });
    let same_row = SelRange { start: pos(2, 7), end: pos(2, 3) }.normalize();
    assert_eq!(same_row, SelRange { start: pos(2, 3), end: pos(2, 7) });
}

#[test]
fn columns_per_row() {
    let r = SelRange { start: pos(5, 4), end: pos(2, 6) };
    assert_eq!(r.cols_for_row(1), 0..0);
    assert_eq!(r.cols_for_row(2), 6..usize::MAX);
    assert_eq!(r.cols_for_row(3), 0..usize::MAX);
    assert_eq!(r.cols_for_row(5), 0..5);
    assert_eq!(r.cols_for_row(6), 0..0);
    let one = SelRange { start: pos(0, 8), end: pos(0, 2) };
    assert_eq!(one.cols_for_row(0), 2..9);
    assert_eq!(r.sel_cols(3, 80), (0, 80));
    assert_eq!(r.sel_cols(2, 80), (6, 80));
    assert_eq!(r.sel_cols(2, 4), (u16::MAX, u16::MAX));
    assert_eq!(r.sel_cols(9, 80), (u16::MAX, u16::MAX));
}

#[test]
fn union_covers_both() {
    let a = SelRange { start: pos(2, 5), end: pos(1, 1) };
    let b = SelRange { start: pos(3, 0), end: pos(2, 9) };
    assert_eq!(union_range(a, b), SelRange { start: pos(1, 1), end: pos(3, 0) });
}

#[test]
fn clear_reports_change_and_fingerprint_normalizes() {
    let mut s = Selection::default();
    assert!(!s.clear());
    assert!(s.fingerprint().is_none());
    s.range = Some(SelRange { start: pos(4, usize::MAX), end: pos(-1, 2) });
    s.mode = SelMode::Word;
    assert_eq!(s.fingerprint(), Some((-1, 2, 4, u32::MAX)));
    assert!(s.clear());
    assert!(s.range.is_none());
    assert_eq!(s.mode, SelMode::Word);
}

fn cells(s: &str) -> Vec<String> {
    s.chars().map(|c| if c == '_' { String::new() } else { c.to_string() }).collect()
}

#[test]
fn word_bounds_stop_at_boundary_characters() {
    let line = cells("ls -la /tmp/x.txt");
    let boundary = " \t\n{[}]()\"'`";
    assert_eq!(wezterm_gpui::selection::word_bounds(&line, 8, boundary), Some((7, 16)));
    assert_eq!(wezterm_gpui::selection::word_bounds(&line, 0, boundary), Some((0, 1)));
    assert_eq!(wezterm_gpui::selection::word_bounds(&line, 2, boundary), None);
    assert_eq!(wezterm_gpui::selection::word_bounds(&line, 99, boundary), None);
    // an empty cell (the right half of a wide glyph) is no word cell
    let wide = cells("ab_c");
    assert_eq!(wezterm_gpui::selection::word_bounds(&wide, 0, " "), Some((0, 1)));
}

#[test]
fn line_bounds_cover_every_physical_row() {
    use_line_bounds();
}

fn use_line_bounds() {
    let r = wezterm_gpui::selection::line_bounds(10, 3);
    assert_eq!(r.start, wezterm_gpui::selection::CellPos { y: 10, x: 0 });
    assert_eq!(r.end, wezterm_gpui::selection::CellPos { y: 12, x: usize::MAX });
    let r = wezterm_gpui::selection::line_bounds(4, 0);
    assert_eq!(r.end.y, 4);
}
