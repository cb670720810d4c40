//! Viewport resolver: which source pixels are visible.
//!
//! From the image dimensions and the view (zoom and pan) this stage resolves
//! the source rectangle, in image-pixel coordinates, that a render pass will
//! sample. Zoom shrinks the rectangle around the image center (never past the
//! full image, never below one pixel); pan shifts it and saturates at the
//! image edges, so the rectangle always lies fully inside the image.

use crate::rounding::{
    lemma_round_div_mono, lemma_round_div_nonneg, round_div, round_div_u64,
};
use crate::view::ViewState;
use vstd::arithmetic::div_mod::{
    lemma_div_nonincreasing, lemma_div_pos_is_pos, lemma_multiply_divide_lt,
};
use vstd::prelude::*;

verus! {

/// The resolved source rectangle: the part of the image a render pass samples.
#[derive(Clone, Copy, PartialEq, Eq, Structural, Debug)]
pub struct SourceRect {
    pub x0: u32,
    pub y0: u32,
    pub w: u32,
    pub h: u32,
}

/// `v` forced into `[lo, hi]`.
pub open spec fn clamp_int(v: int, lo: int, hi: int) -> int
    recommends
        lo <= hi,
{
    if v < lo {
        lo
    } else if v > hi {
        hi
    } else {
        v
    }
}

/// One side of the source rectangle: the image dimension divided by the zoom
/// factor `num / den` and rounded, then kept within `[1, image_dim]` (the
/// view can neither zoom out past the full image nor shrink below one pixel).
pub open spec fn spec_src_dim(image_dim: int, zoom_num: int, zoom_den: int) -> int
    recommends
        image_dim >= 1,
        zoom_num >= 1,
        zoom_den >= 1,
{
    let raw = round_div(image_dim * zoom_den, zoom_num);
    if raw > image_dim {
        image_dim
    } else if raw < 1 {
        1
    } else {
        raw
    }
}

/// One coordinate of the source rectangle's corner: the centered base offset
/// plus the pan, saturated into `[0, image_dim - src_dim]`.
pub open spec fn spec_src_offset(image_dim: int, src_dim: int, pan: int) -> int
    recommends
        1 <= src_dim <= image_dim,
{
    let max_off = image_dim - src_dim;
    clamp_int(max_off / 2 + pan, 0, max_off)
}

/// The resolved width for a view.
pub open spec fn spec_src_w(image_w: int, v: ViewState) -> int {
    spec_src_dim(image_w, v.zoom.num as int, v.zoom.den as int)
}

/// The resolved height for a view.
pub open spec fn spec_src_h(image_h: int, v: ViewState) -> int {
    spec_src_dim(image_h, v.zoom.num as int, v.zoom.den as int)
}

/// The resolved left edge for a view.
pub open spec fn spec_src_x0(image_w: int, v: ViewState) -> int {
    spec_src_offset(image_w, spec_src_w(image_w, v), v.pan_x as int)
}

/// The resolved top edge for a view.
pub open spec fn spec_src_y0(image_h: int, v: ViewState) -> int {
    spec_src_offset(image_h, spec_src_h(image_h, v), v.pan_y as int)
}

fn source_dim(image_dim: u32, num: u32, den: u32) -> (d: u32)
    requires
        image_dim >= 1,
        num >= 1,
        den >= 1,
    ensures
        d as int == spec_src_dim(image_dim as int, num as int, den as int),
        1 <= d <= image_dim,
{
    proof {
        assert((image_dim as int) * (den as int) <= u64::MAX) by (nonlinear_arith)
            requires
                image_dim <= u32::MAX,
                den <= u32::MAX,
        ;
    }
    let raw: u64 = round_div_u64((image_dim as u64) * (den as u64), num as u64);
    if raw > image_dim as u64 {
        image_dim
    } else if raw < 1 {
        1
    } else {
        raw as u32
    }
}

fn source_offset(image_dim: u32, src_dim: u32, pan: i32) -> (o: u32)
    requires
        1 <= src_dim <= image_dim,
    ensures
        o as int == spec_src_offset(image_dim as int, src_dim as int, pan as int),
        o + src_dim <= image_dim,
{
    let max_off: u32 = image_dim - src_dim;
    let base: u32 = max_off / 2;
    let shifted: i64 = (base as i64) + (pan as i64);
    if shifted < 0 {
        0
    } else if shifted > max_off as i64 {
        max_off
    } else {
        shifted as u32
    }
}

/// Resolves the visible source rectangle for an image and a view.
///
/// The rectangle always satisfies containment: it is at least one pixel in
/// each dimension and lies fully inside the image, for every well-formed
/// view (any zoom, any pan).
pub fn resolve_viewport(image_w: u32, image_h: u32, view: &ViewState) -> (r: SourceRect)
    requires
        image_w >= 1,
        image_h >= 1,
        view.wf(),
    ensures
        r.w as int == spec_src_w(image_w as int, *view),
        r.h as int == spec_src_h(image_h as int, *view),
        r.x0 as int == spec_src_x0(image_w as int, *view),
        r.y0 as int == spec_src_y0(image_h as int, *view),
        1 <= r.w <= image_w,
        1 <= r.h <= image_h,
        r.x0 + r.w <= image_w,
        r.y0 + r.h <= image_h,
{
    let w = source_dim(image_w, view.zoom.num, view.zoom.den);
    let h = source_dim(image_h, view.zoom.num, view.zoom.den);
    let x0 = source_offset(image_w, w, view.pan_x);
    let y0 = source_offset(image_h, h, view.pan_y);
    SourceRect { x0, y0, w, h }
}

/// Panning saturates instead of wrapping or overflowing: a pan beyond the
/// reachable range lands exactly on the corresponding bound, `0` on the left
/// or top, `image_dim - src_dim` on the right or bottom.
pub proof fn lemma_pan_saturation(image_dim: int, src_dim: int, pan: int)
    requires
        1 <= src_dim <= image_dim,
    ensures
        pan > image_dim - src_dim ==> spec_src_offset(image_dim, src_dim, pan) == image_dim
            - src_dim,
        pan < -(image_dim - src_dim) ==> spec_src_offset(image_dim, src_dim, pan) == 0,
{
    let max_off = image_dim - src_dim;
    lemma_div_pos_is_pos(max_off, 2);
    lemma_div_nonincreasing(max_off, 2);
}

/// Zooming in is monotone: a larger zoom factor never yields a larger source
/// dimension. (Two close zoom factors can round to the same dimension, so the
/// decrease is not strict in general.)
pub proof fn lemma_zoom_monotone(image_dim: int, n1: int, d1: int, n2: int, d2: int)
    requires
        image_dim >= 1,
        n1 >= 1,
        d1 >= 1,
        n2 >= 1,
        d2 >= 1,
        n1 * d2 <= n2 * d1,
    ensures
        spec_src_dim(image_dim, n2, d2) <= spec_src_dim(image_dim, n1, d1),
{
    assert((image_dim * d2) * n1 <= (image_dim * d1) * n2) by (nonlinear_arith)
        requires
            n1 * d2 <= n2 * d1,
            image_dim >= 1,
    ;
    lemma_round_div_mono(image_dim * d1, n1, image_dim * d2, n2);
}

/// Past a zoom of twice the image dimension the rounded size would vanish,
/// and the one-pixel floor takes over.
pub proof fn lemma_zoom_floor(image_dim: int, num: int, den: int)
    requires
        image_dim >= 1,
        den >= 1,
        num > 2 * (image_dim * den),
    ensures
        spec_src_dim(image_dim, num, den) == 1,
{
    let a = image_dim * den;
    lemma_round_div_nonneg(a, num);
    assert(2 * a + num < (2 * num) * 1) by (nonlinear_arith)
        requires
            num > 2 * a,
    ;
    lemma_multiply_divide_lt(2 * a + num, 2 * num, 1);
}

} // verus!
