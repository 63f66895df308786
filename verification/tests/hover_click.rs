use wezterm_gpui::hover::{click_opens_hovered_link, same_hyperlink};

#[test]
fn plain_click_opens_when_no_selection() {
    assert!(click_opens_hovered_link(false, false, false, false, false));
    assert!(!click_opens_hovered_link(false, false, false, true, false));
    assert!(!click_opens_hovered_link(false, false, false, false, true));
}

#[test]
fn lua_ctrl_click_still_opens() {
    assert!(click_opens_hovered_link(true, false, false, false, true));
    assert!(!click_opens_hovered_link(false, false, true, false, true));
}

#[test]
fn complete_or_open_skips_when_selecting() {
    assert!(click_opens_hovered_link(false, true, false, false, false));
    assert!(!click_opens_hovered_link(false, true, false, true, false));
}

#[test]
fn disable_default_skips_plain_click_keeps_lua() {
    assert!(!click_opens_hovered_link(false, false, false, false, true));
    assert!(click_opens_hovered_link(true, false, false, false, true));
}

#[test]
fn link_identity_is_the_shared_value() {
    assert!(same_hyperlink(Some(7), Some(7)));
    assert!(!same_hyperlink(Some(7), Some(8)));
    assert!(same_hyperlink(None, None));
    assert!(!same_hyperlink(Some(7), None));
}
