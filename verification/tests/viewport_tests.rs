use desperate_dig::viewport::{anchor_for, virtual_viewport, Anchor, VirtualViewport};

#[test]
fn a_window_of_the_reference_shape_is_anchored_on_its_height() {
    assert_eq!(anchor_for(800, 600), Anchor::Height);
    let v = virtual_viewport(800, 600).unwrap();
    assert_eq!(v, VirtualViewport { width_num: 4800, height_num: 3600, den: 600 });
    assert_eq!(v.height_num, 6 * v.den);
    assert_eq!(v.width_num, 8 * v.den);
}

#[test]
fn a_wide_window_is_anchored_on_its_width() {
    assert_eq!(anchor_for(1280, 720), Anchor::Width);
    let v = virtual_viewport(1280, 720).unwrap();
    assert_eq!(v, VirtualViewport { width_num: 10240, height_num: 5760, den: 1280 });
    assert_eq!(v.width_num, 8 * v.den);
    assert_eq!(2 * v.height_num, 9 * v.den);
}

#[test]
fn a_tall_window_is_anchored_on_its_height() {
    assert_eq!(anchor_for(600, 800), Anchor::Height);
    let v = virtual_viewport(600, 800).unwrap();
    assert_eq!(v.height_num, 6 * v.den);
    assert_eq!(2 * v.width_num, 9 * v.den);
}

#[test]
fn one_pixel_more_than_the_reference_shape_tips_the_anchor() {
    assert_eq!(anchor_for(801, 600), Anchor::Width);
    assert_eq!(anchor_for(799, 600), Anchor::Height);
    assert_eq!(anchor_for(40_000_001, 30_000_000), Anchor::Width);
    assert_eq!(anchor_for(4, 3), Anchor::Height);
}

#[test]
fn a_window_without_area_has_no_viewport() {
    assert_eq!(virtual_viewport(0, 600), None);
    assert_eq!(virtual_viewport(800, 0), None);
    assert_eq!(virtual_viewport(0, 0), None);
}

#[test]
fn the_largest_window_does_not_overflow() {
    let v = virtual_viewport(u32::MAX, u32::MAX).unwrap();
    assert_eq!(v.den, u32::MAX as u64);
    assert_eq!(v.width_num, 6 * (u32::MAX as u64));
    assert_eq!(v.height_num, 6 * (u32::MAX as u64));
    let w = virtual_viewport(u32::MAX, 1).unwrap();
    assert_eq!(w, VirtualViewport { width_num: 8 * (u32::MAX as u64), height_num: 8, den: u32::MAX as u64 });
}

#[test]
fn the_viewport_keeps_the_shape_of_the_window_and_fits_the_reference() {
    let sizes: [(u32, u32); 6] = [(1, 1), (1920, 1080), (1080, 1920), (640, 480), (3, 1000), (1000, 3)];
    for (w, h) in sizes {
        let v = virtual_viewport(w, h).unwrap();
        assert_eq!(v.width_num * (h as u64), v.height_num * (w as u64));
        assert!(v.width_num <= 8 * v.den);
        assert!(v.height_num <= 6 * v.den);
        assert!(v.width_num == 8 * v.den || v.height_num == 6 * v.den);
        assert!(v.den > 0 && v.width_num > 0 && v.height_num > 0);
    }
}
