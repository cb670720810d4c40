use terminal_image_viewer::view::{ViewState, Zoom};
use terminal_image_viewer::viewport::{resolve_viewport, SourceRect};

#[test]
fn full_view_at_zoom_one() {
    let v = ViewState::new(Zoom::one(), 0, 0);
    let r = resolve_viewport(100, 100, &v);
    assert_eq!(r, SourceRect { x0: 0, y0: 0, w: 100, h: 100 });
}

#[test]
fn zoom_two_gives_centered_crop() {
    let v = ViewState::new(Zoom::new(2, 1), 0, 0);
    let r = resolve_viewport(100, 100, &v);
    assert_eq!(r, SourceRect { x0: 25, y0: 25, w: 50, h: 50 });
}

#[test]
fn huge_pan_saturates_with_full_image_visible() {
    let v = ViewState::new(Zoom::one(), 1000, 0);
    let r = resolve_viewport(10, 10, &v);
    assert_eq!(r.w, 10);
    assert_eq!(r.h, 10);
    assert_eq!(r.x0, 0);
    assert_eq!(r.y0, 0);
}

#[test]
fn pan_saturates_at_right_and_left_bounds() {
    let zoomed = Zoom::new(2, 1);
    let right = resolve_viewport(100, 100, &ViewState::new(zoomed, 1000, 0));
    assert_eq!(right.w, 50);
    assert_eq!(right.x0, 50);
    let left = resolve_viewport(100, 100, &ViewState::new(zoomed, -1000, 0));
    assert_eq!(left.x0, 0);
}

#[test]
fn small_pan_shifts_from_center() {
    let v = ViewState::new(Zoom::new(2, 1), 10, -5);
    let r = resolve_viewport(100, 100, &v);
    assert_eq!(r.x0, 35);
    assert_eq!(r.y0, 20);
}

#[test]
fn zoom_below_one_is_clamped_to_full_image() {
    let v = ViewState::new(Zoom::new(1, 2), 0, 0);
    let r = resolve_viewport(100, 80, &v);
    assert_eq!(r, SourceRect { x0: 0, y0: 0, w: 100, h: 80 });
}

#[test]
fn fractional_zoom_rounds_to_nearest() {
    let r3 = resolve_viewport(100, 100, &ViewState::new(Zoom::new(3, 1), 0, 0));
    assert_eq!(r3.w, 33);
    let r_half_up = resolve_viewport(5, 5, &ViewState::new(Zoom::new(2, 1), 0, 0));
    assert_eq!(r_half_up.w, 3);
}

#[test]
fn larger_zoom_never_enlarges_the_source() {
    let mut prev = u32::MAX;
    for num in 1..40u32 {
        let r = resolve_viewport(100, 100, &ViewState::new(Zoom::new(num, 1), 0, 0));
        assert!(r.w <= prev);
        assert!(r.w >= 1);
        prev = r.w;
    }
}

#[test]
fn extreme_zoom_hits_the_one_pixel_floor() {
    let r = resolve_viewport(100, 100, &ViewState::new(Zoom::new(1_000_000, 1), 0, 0));
    assert_eq!(r.w, 1);
    assert_eq!(r.h, 1);
    assert_eq!(r.x0, 49);
}

#[test]
fn containment_holds_across_views() {
    let zooms = [(1u32, 1u32), (1, 2), (2, 1), (3, 2), (7, 3), (1000, 1)];
    let pans = [0i32, 1, -1, 17, -17, i32::MAX, i32::MIN];
    for &(num, den) in zooms.iter() {
        for &px in pans.iter() {
            for &py in pans.iter() {
                let v = ViewState::new(Zoom::new(num, den), px, py);
                let r = resolve_viewport(37, 61, &v);
                assert!(r.w >= 1 && r.h >= 1);
                assert!(r.x0 as u64 + r.w as u64 <= 37);
                assert!(r.y0 as u64 + r.h as u64 <= 61);
            }
        }
    }
}
