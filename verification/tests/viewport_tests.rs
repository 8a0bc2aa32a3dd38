use crabd::viewport::ViewportState;

#[test]
fn fresh_viewport_sits_at_origin() {
    let v = ViewportState::new();
    assert_eq!(v.vertical, 0);
    assert_eq!(v.horizontal, 0);
    assert_eq!(v.max_vertical, 0);
    assert_eq!(v.max_horizontal, 0);
}

#[test]
fn steps_clamp_at_both_ends() {
    let mut v = ViewportState::new();
    v.recompute_bounds(10, 7, 6, 5);
    assert_eq!(v.max_vertical, 4);
    assert_eq!(v.max_horizontal, 2);
    v.scroll_up();
    assert_eq!(v.vertical, 0);
    for _ in 0..10 {
        v.scroll_down();
    }
    assert_eq!(v.vertical, 4);
    v.scroll_left();
    assert_eq!(v.horizontal, 0);
    for _ in 0..10 {
        v.scroll_right();
    }
    assert_eq!(v.horizontal, 2);
}

#[test]
fn jumps_land_on_the_extremes() {
    let mut v = ViewportState::new();
    v.recompute_bounds(20, 30, 5, 10);
    v.scroll_to_bottom();
    assert_eq!(v.vertical, 15);
    v.scroll_to_top();
    assert_eq!(v.vertical, 0);
    v.scroll_to_end();
    assert_eq!(v.horizontal, 20);
    v.scroll_to_start();
    assert_eq!(v.horizontal, 0);
}

#[test]
fn recompute_clamps_offsets_into_new_bounds() {
    let mut v = ViewportState::new();
    v.recompute_bounds(100, 100, 10, 10);
    v.scroll_to_bottom();
    v.scroll_to_end();
    assert_eq!(v.vertical, 90);
    assert_eq!(v.horizontal, 90);
    v.recompute_bounds(12, 14, 10, 10);
    assert_eq!(v.max_vertical, 2);
    assert_eq!(v.max_horizontal, 4);
    assert_eq!(v.vertical, 2);
    assert_eq!(v.horizontal, 4);
}

#[test]
fn content_smaller_than_viewport_pins_bounds_at_zero() {
    let mut v = ViewportState::new();
    v.scroll_to_bottom();
    v.recompute_bounds(3, 4, 10, 20);
    assert_eq!(v.max_vertical, 0);
    assert_eq!(v.max_horizontal, 0);
    assert_eq!(v.vertical, 0);
    assert_eq!(v.horizontal, 0);
}
