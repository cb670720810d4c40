use terminal_image_viewer::scale::{compute_scale, ScaledLayout};

#[test]
fn half_scale_fills_square_target() {
    let l = compute_scale(100, 100, 50, 25);
    assert_eq!(
        l,
        ScaledLayout {
            scaled_w: 50,
            scaled_h: 50,
            cells_w: 50,
            cells_h: 25,
            offset_x: 0,
            offset_y: 0,
        }
    );
}

#[test]
fn narrow_target_letterboxes_vertically() {
    let l = compute_scale(100, 100, 10, 25);
    assert_eq!(l.scaled_w, 10);
    assert_eq!(l.scaled_h, 10);
    assert_eq!(l.cells_h, 5);
    assert_eq!(l.offset_x, 0);
    assert_eq!(l.offset_y, 10);
}

#[test]
fn wide_target_pillarboxes_horizontally() {
    let l = compute_scale(10, 40, 80, 10);
    assert_eq!(l.scaled_h, 20);
    assert_eq!(l.scaled_w, 5);
    assert_eq!(l.cells_h, 10);
    assert_eq!(l.offset_x, 37);
    assert_eq!(l.offset_y, 0);
}

#[test]
fn odd_scaled_height_still_fills_a_whole_cell_row() {
    let l = compute_scale(3, 3, 3, 2);
    assert_eq!(l.scaled_w, 3);
    assert_eq!(l.scaled_h, 3);
    assert_eq!(l.cells_h, 2);
}

#[test]
fn zero_sized_target_scales_to_nothing() {
    let l = compute_scale(10, 10, 0, 5);
    assert_eq!(l.scaled_w, 0);
    assert_eq!(l.scaled_h, 0);
    assert_eq!(l.cells_h, 0);
    let l = compute_scale(10, 10, 7, 0);
    assert_eq!(l.scaled_w, 0);
    assert_eq!(l.scaled_h, 0);
}

#[test]
fn aspect_ratio_is_kept_within_rounding() {
    let cases = [
        (100u32, 100u32, 50u16, 25u16),
        (3, 7, 5, 4),
        (1920, 1080, 80, 24),
        (7, 3, 4, 9),
        (640, 480, 1, 1),
    ];
    for &(src_w, src_h, tw, th) in cases.iter() {
        let l = compute_scale(src_w, src_h, tw, th);
        let lhs = 2 * (l.scaled_w as i64 * src_h as i64 - l.scaled_h as i64 * src_w as i64).abs();
        let bound = src_w.max(src_h) as i64;
        assert!(lhs <= bound, "aspect drift {} over {} for {:?}", lhs, bound, (src_w, src_h, tw, th));
    }
}

#[test]
fn scaled_image_never_overflows_the_target() {
    for src_w in [1u32, 2, 3, 17, 100, 1000] {
        for src_h in [1u32, 5, 99, 256] {
            for tw in [0u16, 1, 7, 80] {
                for th in [0u16, 1, 24, 50] {
                    let l = compute_scale(src_w, src_h, tw, th);
                    assert!(l.scaled_w <= tw);
                    assert!(l.scaled_h <= 2 * th as u32);
                    assert!(l.offset_x as u32 + l.cells_w as u32 <= tw as u32);
                    assert!(l.offset_y as u32 + l.cells_h as u32 <= th as u32);
                }
            }
        }
    }
}
