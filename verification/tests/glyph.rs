use wezterm_gpui::glyph::{CellBg, cell_background, cursor_block_col, fill_rect, fills_cell_background, glyph_coverage, only_char, pack_rgb, selected_span, stroke_rect, unpack_rgb};

#[test]
fn cursor_past_visible_cells_still_paints() {
    // Prompt / typed char / space: stored cells 0..n, VT cursor at n.
    let visible = [0usize, 1, 2];
    let cursor = 3;
    assert!(
        !visible.contains(&cursor),
        "fixture: cursor past last stored cell"
    );
    assert_eq!(cursor_block_col(Some(cursor), 80), Some(3));
    assert_eq!(cursor_block_col(Some(80), 80), None);
    assert_eq!(cursor_block_col(None, 80), None);
}

#[test]
fn pack_and_unpack_round_trip() {
    assert_eq!(pack_rgb(0x28, 0x2a, 0x36), 0x0028_2a36);
    assert_eq!(unpack_rgb(0x0028_2a36), (0x28, 0x2a, 0x36));
    assert_eq!(unpack_rgb(0xff12_3456), (0x12, 0x34, 0x56));
}

#[test]
fn only_char_needs_exactly_one() {
    assert_eq!(only_char("x"), Some('x'));
    assert_eq!(only_char("é"), Some('é'));
    assert_eq!(only_char(""), None);
    assert_eq!(only_char("ab"), None);
}

fn px(p: &[u8], w: u32, x: u32, y: u32) -> [u8; 4] {
    let i = ((y * w + x) * 4) as usize;
    [p[i], p[i + 1], p[i + 2], p[i + 3]]
}

#[test]
fn fill_rect_clips_to_the_image() {
    let (w, h) = (4u32, 3u32);
    let mut p = vec![0u8; (w * h * 4) as usize];
    fill_rect(&mut p, w, h, 2, 1, 5, 5, 1, 2, 3, 4);
    assert_eq!(px(&p, w, 1, 1), [0, 0, 0, 0]);
    assert_eq!(px(&p, w, 2, 1), [1, 2, 3, 4]);
    assert_eq!(px(&p, w, 3, 2), [1, 2, 3, 4]);
    assert_eq!(px(&p, w, 3, 0), [0, 0, 0, 0]);
    let mut q = vec![9u8; (w * h * 4) as usize];
    fill_rect(&mut q, w, h, -1, -1, 2, 2, 5, 5, 5, 5);
    assert_eq!(px(&q, w, 0, 0), [5, 5, 5, 5]);
    assert_eq!(px(&q, w, 1, 0), [9, 9, 9, 9]);
    let before = q.clone();
    fill_rect(&mut q, w, h, 0, 0, 0, 3, 1, 1, 1, 1);
    assert_eq!(q, before);
}

#[test]
fn stroke_rect_outlines_only_the_edges() {
    let (w, h) = (5u32, 5u32);
    let mut p = vec![0u8; (w * h * 4) as usize];
    stroke_rect(&mut p, w, h, 0, 0, 5, 5, 7, 8, 9);
    assert_eq!(px(&p, w, 0, 0), [7, 8, 9, 255]);
    assert_eq!(px(&p, w, 4, 4), [7, 8, 9, 255]);
    assert_eq!(px(&p, w, 4, 2), [7, 8, 9, 255]);
    assert_eq!(px(&p, w, 2, 4), [7, 8, 9, 255]);
    assert_eq!(px(&p, w, 2, 2), [0, 0, 0, 0]);
    assert_eq!(px(&p, w, 1, 3), [0, 0, 0, 0]);
}

#[test]
fn glyph_coverage_copies_whole_rows_only() {
    let data: Vec<u8> = (0u8..24).collect();
    // 2x3 glyph, all rows present
    assert_eq!(glyph_coverage(2, 3, &data), data);
    // short data: only the first row fits
    let short = &data[..10];
    let out = glyph_coverage(2, 3, short);
    assert_eq!(out.len(), 24);
    assert_eq!(&out[..8], &data[..8]);
    assert!(out[8..].iter().all(|b| *b == 0));
    // empty glyph still yields one transparent pixel
    assert_eq!(glyph_coverage(0, 0, &[]), vec![0u8; 4]);
}

#[test]
fn cell_background_prefers_cursor_then_selection_then_reverse() {
    let sel = selected_span(2, 5, 80);
    assert_eq!(sel, Some((2, 5)));
    assert_eq!(cell_background(3, true, Some(3), sel, true), CellBg::Cursor);
    assert_eq!(cell_background(3, false, Some(3), sel, true), CellBg::Selection);
    assert_eq!(cell_background(7, true, Some(3), sel, true), CellBg::Foreground);
    assert_eq!(cell_background(7, true, None, sel, false), CellBg::Background);
    assert_eq!(selected_span(u16::MAX, 5, 80), None);
    assert_eq!(selected_span(4, 90, 10), Some((4, 10)));
    assert_eq!(selected_span(12, 90, 10), None);
    assert!(!fills_cell_background(0x112233, 0x112233, CellBg::Background));
    assert!(fills_cell_background(0x112233, 0x112233, CellBg::Selection));
    assert!(fills_cell_background(0x445566, 0x112233, CellBg::Foreground));
}
