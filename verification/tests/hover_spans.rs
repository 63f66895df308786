use wezterm_gpui::hover::{hover_underline_spans, same_hyperlink, HoverCell, LinkHoverSpan};

fn line_with_link(text: &str, start: usize, end: usize, link: u64) -> Vec<HoverCell> {
    text.chars()
        .enumerate()
        .map(|(col, _)| HoverCell {
            col,
            width: 1,
            link: if (start..end).contains(&col) { Some(link) } else { None },
        })
        .collect()
}

#[test]
fn hover_spans_one_url_run() {
    let line = line_with_link("see http://example.com now", 4, 22, 1);
    let spans = hover_underline_spans(&[line], Some(1));
    assert_eq!(
        spans,
        vec![LinkHoverSpan {
            vis_row: 0,
            col: 4,
            len: 18,
        }]
    );
}

#[test]
fn hover_spans_ignore_other_arc() {
    let line = line_with_link("http://example.com", 0, 18, 1);
    assert!(hover_underline_spans(&[line], Some(2)).is_empty());
    assert!(!same_hyperlink(Some(1), Some(2)));
    assert!(same_hyperlink(Some(1), Some(1)));
}

#[test]
fn hover_none_is_empty() {
    let line = line_with_link("http://example.com", 0, 18, 1);
    assert!(hover_underline_spans(&[line], None).is_empty());
}

#[test]
fn hover_runs_split_per_row_and_gap() {
    let mut row0 = line_with_link("abcdef", 0, 2, 5);
    row0[4].link = Some(5);
    // a wide cell at the end of the second run
    row0[4].width = 2;
    let row1 = line_with_link("xyz", 1, 3, 5);
    let spans = hover_underline_spans(&[row0, row1], Some(5));
    assert_eq!(
        spans,
        vec![
            LinkHoverSpan { vis_row: 0, col: 0, len: 2 },
            LinkHoverSpan { vis_row: 0, col: 4, len: 2 },
            LinkHoverSpan { vis_row: 1, col: 1, len: 2 },
        ]
    );
}
