use wezterm_gpui::boxdraw::{arms_of, is_box_draw, Arm};

#[test]
fn ascii_is_not_box_draw() {
    assert!(!is_box_draw('A'));
    assert!(arms_of('A').is_none());
}

#[test]
fn range_edges_are_box_draw() {
    assert!(is_box_draw('\u{2500}'));
    assert!(is_box_draw('\u{259f}'));
    assert!(is_box_draw('█'));
    assert!(!is_box_draw('\u{24ff}'));
    assert!(!is_box_draw('\u{25a0}'));
}

#[test]
fn line_arms_follow_the_chart() {
    assert_eq!(arms_of('─'), Some((Arm::Empty, Arm::Empty, Arm::Light, Arm::Light)));
    assert_eq!(arms_of('┃'), Some((Arm::Heavy, Arm::Heavy, Arm::Empty, Arm::Empty)));
    assert_eq!(arms_of('┼'), Some((Arm::Light, Arm::Light, Arm::Light, Arm::Light)));
    assert_eq!(arms_of('╿'), Some((Arm::Heavy, Arm::Light, Arm::Empty, Arm::Empty)));
    // dashes, doubles and blocks are drawn elsewhere
    assert_eq!(arms_of('┄'), None);
    assert_eq!(arms_of('═'), None);
    assert_eq!(arms_of('█'), None);
}
