use wezterm_gpui::commands::palette_commands;
use wezterm_gpui::palette_rows::{filter_rows, palette_rows, palette_status, DomainProfile, PaletteRow};
use wezterm_gpui::picker::{char_select_items, filter_items, push_hex4, PickerItem};

#[test]
fn hex4_pads_to_four_upper_digits() {
    let mut s = String::new();
    push_hex4(&mut s, 0xa0);
    assert_eq!(s, "00A0");
    let mut s = String::new();
    push_hex4(&mut s, 0x1f600);
    assert_eq!(s, "1F600");
    let mut s = String::from("U+");
    push_hex4(&mut s, 0);
    assert_eq!(s, "U+0000");
}

#[test]
fn char_select_lists_named_then_box_drawing() {
    let items = char_select_items();
    assert_eq!(items.len(), 64 + 0xA0);
    assert_eq!(
        items[0],
        PickerItem { id: "char: ".into(), title: "   Space".into(), subtitle: "U+0020".into() }
    );
    assert_eq!(items[1].subtitle, "U+00A0");
    assert_eq!(items[49].title, "😀  Smile emoji");
    assert_eq!(items[49].subtitle, "U+1F600");
    assert_eq!(
        items[64],
        PickerItem { id: "char:─".into(), title: "─  U+2500".into(), subtitle: "Box drawing / block".into() }
    );
    assert_eq!(items.last().unwrap().title, "▟  U+259F");
}

#[test]
fn picker_filter_matches_title_subtitle_or_id_ignoring_case() {
    let items = char_select_items();
    let arrows = filter_items(&items, "ARROW");
    assert_eq!(arrows.len(), 6);
    assert!(arrows.iter().all(|i| i.title.to_lowercase().contains("arrow")));
    assert_eq!(filter_items(&items, "u+2500").len(), 1);
    assert_eq!(filter_items(&items, "").len(), items.len());
    assert!(filter_items(&items, "no such thing").is_empty());
}

#[test]
fn palette_rows_put_workspace_commands_last() {
    let domains = vec![DomainProfile { id: "WSL:Ubuntu".into(), label: "Ubuntu".into() }];
    let names = vec!["default".to_string(), "dev".to_string()];
    let rows = palette_rows(&domains, "default", &names);
    let cat = palette_commands();
    let ws: Vec<_> = cat.iter().filter(|c| c.id.starts_with("workspace:")).collect();
    let plain = cat.len() - ws.len();
    assert_eq!(rows.len(), cat.len() + 2);
    assert!(rows[..plain].iter().all(|r| !r.id.starts_with("workspace:")));
    assert_eq!(rows[plain].id, "domain:WSL:Ubuntu");
    assert_eq!(rows[plain].brief, "New Tab (Domain Ubuntu)");
    assert_eq!(rows[plain].doc, "Spawn a tab in mux domain WSL:Ubuntu");
    assert_eq!(rows[plain + 1].id, "workspace:switch:dev");
    assert_eq!(rows[plain + 1].brief, "Switch to workspace dev");
    for (r, c) in rows[plain + 2..].iter().zip(ws) {
        assert_eq!(r.id, c.id);
        assert_eq!(r.wired, c.is_wired());
    }
}

#[test]
fn palette_filter_searches_the_haystack() {
    let rows = palette_rows(&Vec::new(), "default", &Vec::new());
    let n = rows.len();
    let split = filter_rows(rows, "split");
    assert!(!split.is_empty());
    assert!(split.len() < n);
    assert!(split.iter().all(|r| r.haystack().to_lowercase().contains("split")));
    let row = PaletteRow {
        id: "x".into(),
        brief: "B".into(),
        doc: "D".into(),
        menubar: "M".into(),
        keys: "K".into(),
        wired: true,
    };
    assert_eq!(row.haystack(), "M B D K");
    assert_eq!(filter_rows(vec![row], "b d").len(), 1);
}

#[test]
fn status_line_counts_matches_and_wired_rows() {
    let row = |id: &str, wired: bool| PaletteRow {
        id: id.to_string(),
        brief: String::new(),
        doc: String::new(),
        menubar: String::new(),
        keys: String::new(),
        wired,
    };
    let rows = vec![row("A", true), row("B", false), row("C", true)];
    assert_eq!(
        palette_status(&rows, None),
        "3 commands · 2 wired · dimmed = not yet · ↑↓ select · Enter run · Esc close"
    );
    assert_eq!(palette_status(&rows, Some("ran SplitHorizontal")), "ran SplitHorizontal");
    assert_eq!(
        palette_status(&Vec::new(), None),
        "0 commands · 0 wired · dimmed = not yet · ↑↓ select · Enter run · Esc close"
    );
}
