//! Scale calculator: fitting the source rectangle into the target area.
//!
//! The terminal pixel grid is `width_cells` wide and `2 * height_cells` tall,
//! because each cell encodes two stacked pixel rows. One uniform scale — the
//! minimum of the two per-axis ratios — maps the source rectangle onto that
//! grid, so the scaled image never overflows the target area in either axis
//! and the source aspect ratio is preserved up to rounding. The scaled pixel
//! height is converted back to cell rows (an odd height still occupies a full
//! extra row), and the scaled image is centered in the target area.

use crate::rounding::{
    lemma_round_div_error, lemma_round_div_le_bound, round_div, round_div_u64,
};
use vstd::arithmetic::mul::lemma_mul_is_commutative;
use vstd::prelude::*;

verus! {

/// Where the scaled image lands in the target area: its size in terminal
/// pixels, in cells, and the centering offsets in cells.
#[derive(Clone, Copy, PartialEq, Eq, Structural, Debug)]
pub struct ScaledLayout {
    /// Scaled width in terminal pixels; columns are one pixel wide.
    pub scaled_w: u16,
    /// Scaled height in terminal pixels; rows are two pixels tall.
    pub scaled_h: u32,
    /// Columns of cells covered by the image: equal to `scaled_w`.
    pub cells_w: u16,
    /// Rows of cells covered by the image: `scaled_h` pixel rows, two per
    /// cell, rounded up.
    pub cells_h: u16,
    /// Blank columns left of the image.
    pub offset_x: u16,
    /// Blank rows above the image.
    pub offset_y: u16,
}

/// True when the width ratio `tpw / src_w` is the smaller of the two, so the
/// width drives the uniform scale.
pub open spec fn spec_width_limited(src_w: int, src_h: int, tpw: int, tph: int) -> bool {
    tpw * src_h <= tph * src_w
}

/// The scaled width in terminal pixels: `round(src_w * scale)` where `scale`
/// is the smaller of `tpw / src_w` and `tph / src_h`.
pub open spec fn spec_scaled_w(src_w: int, src_h: int, tpw: int, tph: int) -> int
    recommends
        src_w >= 1,
        src_h >= 1,
{
    if spec_width_limited(src_w, src_h, tpw, tph) {
        tpw
    } else {
        round_div(src_w * tph, src_h)
    }
}

/// The scaled height in terminal pixels, by the same shared scale.
pub open spec fn spec_scaled_h(src_w: int, src_h: int, tpw: int, tph: int) -> int
    recommends
        src_w >= 1,
        src_h >= 1,
{
    if spec_width_limited(src_w, src_h, tpw, tph) {
        round_div(src_h * tpw, src_w)
    } else {
        tph
    }
}

/// Pixel rows to cell rows: two per cell, an odd remainder still fills a row.
pub open spec fn spec_cells_h(scaled_h: int) -> int {
    (scaled_h + 1) / 2
}

/// The centering offset: half the slack, never negative.
pub open spec fn spec_offset(target_cells: int, scaled_cells: int) -> int {
    let o = (target_cells - scaled_cells) / 2;
    if o < 0 {
        0
    } else {
        o
    }
}

/// Computes the uniform scale fitting a `src_w` by `src_h` source rectangle
/// into `target_w_cells` by `target_h_cells` cells, and where the scaled
/// image sits inside that area.
pub fn compute_scale(src_w: u32, src_h: u32, target_w_cells: u16, target_h_cells: u16) -> (r:
    ScaledLayout)
    requires
        src_w >= 1,
        src_h >= 1,
    ensures
        r.scaled_w as int == spec_scaled_w(
            src_w as int,
            src_h as int,
            target_w_cells as int,
            2 * target_h_cells as int,
        ),
        r.scaled_h as int == spec_scaled_h(
            src_w as int,
            src_h as int,
            target_w_cells as int,
            2 * target_h_cells as int,
        ),
        r.cells_w == r.scaled_w,
        r.cells_h as int == spec_cells_h(r.scaled_h as int),
        r.offset_x as int == spec_offset(target_w_cells as int, r.cells_w as int),
        r.offset_y as int == spec_offset(target_h_cells as int, r.cells_h as int),
        r.scaled_w <= target_w_cells,
        r.scaled_h <= 2 * target_h_cells,
        r.cells_h <= target_h_cells,
        r.offset_x + r.cells_w <= target_w_cells,
        r.offset_y + r.cells_h <= target_h_cells,
{
    let tpw64: u64 = target_w_cells as u64;
    let tph64: u64 = 2 * (target_h_cells as u64);
    proof {
        assert((target_w_cells as int) * (src_h as int) <= u64::MAX && (2 * target_h_cells as int)
            * (src_w as int) <= u64::MAX && (src_h as int) * (target_w_cells as int) <= u64::MAX
            && (src_w as int) * (2 * target_h_cells as int) <= u64::MAX) by (nonlinear_arith)
            requires
                target_w_cells <= u16::MAX,
                target_h_cells <= u16::MAX,
                src_w <= u32::MAX,
                src_h <= u32::MAX,
        ;
    }
    let width_limited: bool = tpw64 * (src_h as u64) <= tph64 * (src_w as u64);
    let (scaled_w, scaled_h): (u16, u32) = if width_limited {
        let sh64: u64 = round_div_u64((src_h as u64) * tpw64, src_w as u64);
        proof {
            lemma_mul_is_commutative(src_h as int, target_w_cells as int);
            lemma_mul_is_commutative(2 * target_h_cells as int, src_w as int);
            lemma_round_div_le_bound(
                (src_h as int) * (target_w_cells as int),
                src_w as int,
                2 * target_h_cells as int,
            );
        }
        (target_w_cells, sh64 as u32)
    } else {
        let sw64: u64 = round_div_u64((src_w as u64) * tph64, src_h as u64);
        proof {
            lemma_mul_is_commutative(src_w as int, 2 * target_h_cells as int);
            lemma_mul_is_commutative(target_w_cells as int, src_h as int);
            lemma_round_div_le_bound(
                (src_w as int) * (2 * target_h_cells as int),
                src_h as int,
                target_w_cells as int,
            );
        }
        (sw64 as u16, 2 * (target_h_cells as u32))
    };
    let cells_w: u16 = scaled_w;
    let cells_h: u16 = ((scaled_h + 1) / 2) as u16;
    let offset_x: u16 = (target_w_cells - cells_w) / 2;
    let offset_y: u16 = (target_h_cells - cells_h) / 2;
    ScaledLayout { scaled_w, scaled_h, cells_w, cells_h, offset_x, offset_y }
}

/// One shared scale drives both axes, so the scaled rectangle keeps the
/// source aspect ratio up to rounding: the cross products `scaled_w * src_h`
/// and `scaled_h * src_w` differ by at most half the larger source dimension.
pub proof fn lemma_aspect_preserved(src_w: int, src_h: int, tpw: int, tph: int)
    requires
        src_w >= 1,
        src_h >= 1,
        tpw >= 0,
        tph >= 0,
    ensures
        2 * (spec_scaled_w(src_w, src_h, tpw, tph) * src_h - spec_scaled_h(src_w, src_h, tpw, tph)
            * src_w) <= if src_w >= src_h {
            src_w
        } else {
            src_h
        },
        2 * (spec_scaled_h(src_w, src_h, tpw, tph) * src_w - spec_scaled_w(src_w, src_h, tpw, tph)
            * src_h) <= if src_w >= src_h {
            src_w
        } else {
            src_h
        },
{
    if spec_width_limited(src_w, src_h, tpw, tph) {
        let a = src_h * tpw;
        let q = round_div(a, src_w);
        lemma_round_div_error(a, src_w);
        lemma_mul_is_commutative(src_h, tpw);
        assert(2 * (tpw * src_h - q * src_w) <= src_w);
        assert(2 * (q * src_w - tpw * src_h) <= src_w);
    } else {
        let a = src_w * tph;
        let q = round_div(a, src_h);
        lemma_round_div_error(a, src_h);
        lemma_mul_is_commutative(src_w, tph);
        assert(2 * (tph * src_w - q * src_h) <= src_h);
        assert(2 * (q * src_h - tph * src_w) <= src_h);
    }
}

} // verus!
