use wezterm_gpui::win_zorder::WindowZOrder;

#[test]
fn palette_ids_name_levels() {
    assert_eq!(
        WindowZOrder::from_palette_id("SetWindowLevel.Normal"),
        Some(WindowZOrder::Normal)
    );
    assert_eq!(
        WindowZOrder::from_palette_id("SetWindowLevel.AlwaysOnTop"),
        Some(WindowZOrder::AlwaysOnTop)
    );
    assert_eq!(
        WindowZOrder::from_palette_id("SetWindowLevel.AlwaysOnBottom"),
        Some(WindowZOrder::AlwaysOnBottom)
    );
    assert_eq!(WindowZOrder::from_palette_id("ToggleAlwaysOnTop"), None);
}

#[test]
fn toggles_flip_between_level_and_normal() {
    assert_eq!(WindowZOrder::Normal.toggle_top(), WindowZOrder::AlwaysOnTop);
    assert_eq!(WindowZOrder::AlwaysOnTop.toggle_top(), WindowZOrder::Normal);
    assert_eq!(WindowZOrder::AlwaysOnBottom.toggle_top(), WindowZOrder::AlwaysOnTop);
    assert_eq!(WindowZOrder::Normal.toggle_bottom(), WindowZOrder::AlwaysOnBottom);
    assert_eq!(WindowZOrder::AlwaysOnBottom.toggle_bottom(), WindowZOrder::Normal);
    assert_eq!(WindowZOrder::AlwaysOnTop.toggle_bottom(), WindowZOrder::AlwaysOnBottom);
    assert_eq!(WindowZOrder::Normal.toggle_top().toggle_top(), WindowZOrder::Normal);
}
