use wezterm_gpui::placement::cascade_screen_origin;

#[test]
fn first_slot_free() {
    assert_eq!(
        cascade_screen_origin((100, 100), &[(100, 100)], 48, 24),
        (148, 148)
    );
}

#[test]
fn skips_occupied_cascade() {
    assert_eq!(
        cascade_screen_origin((100, 100), &[(100, 100), (148, 148)], 48, 24),
        (196, 196)
    );
}

#[test]
fn near_origins_count_as_taken_and_steps_saturate() {
    // within slack on both axes counts as taken
    assert_eq!(
        cascade_screen_origin((0, 0), &[(60, 30)], 48, 24),
        (96, 96)
    );
    // only one axis near: free
    assert_eq!(cascade_screen_origin((0, 0), &[(48, 200)], 48, 24), (48, 48));
    // saturation at i32::MAX keeps every later step on the same taken spot
    let far = (i32::MAX - 10, i32::MAX - 10);
    assert_eq!(
        cascade_screen_origin(far, &[(i32::MAX, i32::MAX)], 48, 0),
        (i32::MAX, i32::MAX)
    );
}
