//! Letterbox clearer and cell rasterizer: the output side of a render pass.
//!
//! A render pass writes into a caller-supplied grid of terminal cells. It
//! first blanks every cell of the target area, so content from an earlier,
//! larger frame never leaks through, then draws the scaled image: each
//! covered cell becomes an upper-half-block glyph whose foreground is the
//! upper and whose background is the lower of two nearest-neighbor samples
//! from the source rectangle, doubling the effective vertical resolution.

use crate::image::{Image, Rgb};
use crate::scale::{
    compute_scale, spec_cells_h, spec_offset, spec_scaled_h, spec_scaled_w, ScaledLayout,
};
use crate::view::ViewState;
use crate::viewport::{
    resolve_viewport, spec_src_h, spec_src_w, spec_src_x0, spec_src_y0, SourceRect,
};
use vstd::arithmetic::div_mod::{
    lemma_div_nonincreasing, lemma_fundamental_div_mod, lemma_mod_bound, lemma_multiply_divide_lt,
};
use vstd::prelude::*;

verus! {

/// A terminal color: the terminal's default, or a 24-bit RGB value.
#[derive(Clone, Copy, PartialEq, Eq, Structural, Debug)]
pub enum Color {
    Reset,
    Rgb(u8, u8, u8),
}

/// One terminal cell: a glyph plus its foreground and background colors.
#[derive(Clone, Copy, PartialEq, Eq, Structural, Debug)]
pub struct Cell {
    pub glyph: char,
    pub fg: Color,
    pub bg: Color,
}

impl Cell {
    /// The blank state every cell of the target area is reset to: a space
    /// with default colors.
    pub open spec fn spec_blank() -> Cell {
        Cell { glyph: ' ', fg: Color::Reset, bg: Color::Reset }
    }

    pub fn blank() -> (c: Cell)
        ensures
            c == Cell::spec_blank(),
    {
        Cell { glyph: ' ', fg: Color::Reset, bg: Color::Reset }
    }

    /// An image cell: the upper-half block, its foreground showing the upper
    /// and its background the lower of two stacked source samples.
    pub open spec fn spec_half_block(top: Rgb, bottom: Rgb) -> Cell {
        Cell {
            glyph: '\u{2580}',
            fg: Color::Rgb(top.r, top.g, top.b),
            bg: Color::Rgb(bottom.r, bottom.g, bottom.b),
        }
    }

    pub fn half_block(top: Rgb, bottom: Rgb) -> (c: Cell)
        ensures
            c == Cell::spec_half_block(top, bottom),
    {
        Cell {
            glyph: '\u{2580}',
            fg: Color::Rgb(top.r, top.g, top.b),
            bg: Color::Rgb(bottom.r, bottom.g, bottom.b),
        }
    }
}

/// The terminal region available for the image, supplied by the caller each
/// frame: an offset into the cell grid and a size in cells.
#[derive(Clone, Copy, PartialEq, Eq, Structural, Debug)]
pub struct TargetArea {
    pub x: u16,
    pub y: u16,
    pub width_cells: u16,
    pub height_cells: u16,
}

impl TargetArea {
    /// The area lies inside a grid of the given size.
    pub open spec fn spec_fits(&self, grid_w: int, grid_h: int) -> bool {
        &&& self.x + self.width_cells <= grid_w
        &&& self.y + self.height_cells <= grid_h
    }

    /// Whether grid coordinates `(gx, gy)` fall inside the area.
    pub open spec fn spec_contains(&self, gx: int, gy: int) -> bool {
        &&& self.x <= gx < self.x + self.width_cells
        &&& self.y <= gy < self.y + self.height_cells
    }
}

/// A grid of terminal cells in row-major order, the unit a render pass
/// writes into.
pub struct CellGrid {
    pub width: u16,
    pub height: u16,
    pub cells: Vec<Cell>,
}

proof fn lemma_index_in_range(w: int, h: int, x: int, y: int)
    by (nonlinear_arith)
    requires
        0 <= x < w,
        0 <= y < h,
    ensures
        0 <= y * w + x < w * h,
{
}

proof fn lemma_index_injective(w: int, x1: int, y1: int, x2: int, y2: int)
    by (nonlinear_arith)
    requires
        0 <= x1 < w,
        0 <= x2 < w,
        0 <= y1,
        0 <= y2,
        y1 * w + x1 == y2 * w + x2,
    ensures
        x1 == x2,
        y1 == y2,
{
}

impl CellGrid {
    /// The buffer holds exactly one cell per coordinate.
    pub open spec fn wf(&self) -> bool {
        self.cells@.len() == self.width * self.height
    }

    /// The cell at column `x`, row `y` of the row-major buffer.
    pub open spec fn spec_cell(&self, x: int, y: int) -> Cell {
        self.cells@[y * self.width + x]
    }

    /// A fresh grid with every cell blank.
    #[verifier::loop_isolation(false)]
    pub fn new(width: u16, height: u16) -> (g: CellGrid)
        ensures
            g.wf(),
            g.width == width,
            g.height == height,
            forall|x: int, y: int|
                0 <= x < width && 0 <= y < height ==> g.spec_cell(x, y) == Cell::spec_blank(),
    {
        proof {
            assert((width as int) * (height as int) <= 0xffff_ffff) by (nonlinear_arith)
                requires
                    width <= u16::MAX,
                    height <= u16::MAX,
            ;
        }
        let n: usize = (width as usize) * (height as usize);
        let mut cells: Vec<Cell> = Vec::new();
        let mut i: usize = 0;
        while i < n
            invariant
                cells@.len() == i,
                i <= n,
                forall|k: int| 0 <= k < i ==> cells@[k] == Cell::spec_blank(),
            decreases n - i,
        {
            cells.push(Cell::blank());
            i = i + 1;
        }
        let g = CellGrid { width, height, cells };
        proof {
            assert forall|x: int, y: int|
                0 <= x < width && 0 <= y < height implies g.spec_cell(x, y)
                == Cell::spec_blank() by {
                lemma_index_in_range(width as int, height as int, x, y);
            }
        }
        g
    }

    /// Reads the cell at column `x`, row `y`.
    pub fn get(&self, x: u16, y: u16) -> (c: Cell)
        requires
            self.wf(),
            x < self.width,
            y < self.height,
        ensures
            c == self.spec_cell(x as int, y as int),
    {
        proof {
            lemma_index_in_range(self.width as int, self.height as int, x as int, y as int);
        }
        let n: usize = self.cells.len();
        let idx: usize = (y as usize) * (self.width as usize) + (x as usize);
        self.cells[idx]
    }

    /// Writes the cell at column `x`, row `y`, leaving every other cell as
    /// it was.
    pub fn set(&mut self, x: u16, y: u16, c: Cell)
        requires
            old(self).wf(),
            x < old(self).width,
            y < old(self).height,
        ensures
            final(self).wf(),
            final(self).width == old(self).width,
            final(self).height == old(self).height,
            final(self).spec_cell(x as int, y as int) == c,
            forall|i: int, j: int|
                0 <= i < final(self).width && 0 <= j < final(self).height && !(i == x && j == y)
                    ==> final(self).spec_cell(i, j) == old(self).spec_cell(i, j),
    {
        proof {
            lemma_index_in_range(self.width as int, self.height as int, x as int, y as int);
        }
        let n: usize = self.cells.len();
        let idx: usize = (y as usize) * (self.width as usize) + (x as usize);
        let slot: &mut Cell = &mut self.cells[idx];
        *slot = c;
        proof {
            assert forall|i: int, j: int|
                0 <= i < self.width && 0 <= j < self.height && !(i == x && j == y)
                    implies self.spec_cell(i, j) == old(self).spec_cell(i, j) by {
                lemma_index_in_range(self.width as int, self.height as int, i, j);
                if j * self.width + i == y * self.width + x {
                    lemma_index_injective(self.width as int, i, j, x as int, y as int);
                }
            }
        }
    }
}

/// Letterbox clearer: resets every cell of the target area to the blank
/// state, touching nothing outside it. Runs unconditionally before drawing,
/// whatever the previous frame held.
#[verifier::loop_isolation(false)]
pub fn clear_area(buf: &mut CellGrid, area: TargetArea)
    requires
        old(buf).wf(),
        area.spec_fits(old(buf).width as int, old(buf).height as int),
    ensures
        final(buf).wf(),
        final(buf).width == old(buf).width,
        final(buf).height == old(buf).height,
        forall|gx: int, gy: int|
            area.spec_contains(gx, gy) ==> final(buf).spec_cell(gx, gy) == Cell::spec_blank(),
        forall|gx: int, gy: int|
            0 <= gx < final(buf).width && 0 <= gy < final(buf).height && !area.spec_contains(
                gx,
                gy,
            ) ==> final(buf).spec_cell(gx, gy) == old(buf).spec_cell(gx, gy),
{
    let mut row: u16 = 0;
    while row < area.height_cells
        invariant
            buf.wf(),
            buf.width == old(buf).width,
            buf.height == old(buf).height,
            row <= area.height_cells,
            forall|gx: int, gy: int|
                area.spec_contains(gx, gy) && gy < area.y + row ==> buf.spec_cell(gx, gy)
                    == Cell::spec_blank(),
            forall|gx: int, gy: int|
                0 <= gx < buf.width && 0 <= gy < buf.height && !(area.spec_contains(gx, gy)
                    && gy < area.y + row) ==> buf.spec_cell(gx, gy) == old(buf).spec_cell(gx, gy),
        decreases area.height_cells - row,
    {
        let mut col: u16 = 0;
        while col < area.width_cells
            invariant
                buf.wf(),
                buf.width == old(buf).width,
                buf.height == old(buf).height,
                row < area.height_cells,
                col <= area.width_cells,
                forall|gx: int, gy: int|
                    area.spec_contains(gx, gy) && (gy < area.y + row || (gy == area.y + row && gx
                        < area.x + col)) ==> buf.spec_cell(gx, gy) == Cell::spec_blank(),
                forall|gx: int, gy: int|
                    0 <= gx < buf.width && 0 <= gy < buf.height && !(area.spec_contains(gx, gy) && (
                    gy < area.y + row || (gy == area.y + row && gx < area.x + col)))
                        ==> buf.spec_cell(gx, gy) == old(buf).spec_cell(gx, gy),
            decreases area.width_cells - col,
        {
            buf.set(area.x + col, area.y + row, Cell::blank());
            col = col + 1;
        }
        row = row + 1;
    }
}

/// The source column sampled for local output column `cx`: nearest-neighbor
/// at the column's center, `x0 + floor((cx + 1/2) * src_w / scaled_w)`.
pub open spec fn spec_sample_x(x0: int, src_w: int, scaled_w: int, cx: int) -> int
    recommends
        scaled_w >= 1,
{
    x0 + ((2 * cx + 1) * src_w) / (2 * scaled_w)
}

/// The source row sampled for scaled pixel row `row2` (`2 * cy` for a cell's
/// upper sample, `2 * cy + 1` for its lower): `y0 + floor(row2 * src_h /
/// scaled_h)`, clamped to the last image row. When the scaled height is odd,
/// the lower sample of the last cell row falls just past the source
/// rectangle and the clamp repeats the last row instead.
pub open spec fn spec_sample_y(y0: int, src_h: int, image_h: int, scaled_h: int, row2: int) -> int
    recommends
        scaled_h >= 1,
        image_h >= 1,
{
    let v = y0 + (row2 * src_h) / scaled_h;
    if v > image_h - 1 {
        image_h - 1
    } else {
        v
    }
}

/// The image cell drawn at local column `cx`, row `cy` of the scaled region:
/// one upper and one lower sample out of the source rectangle
/// `(x0, y0, src_w, src_h)`.
pub open spec fn spec_region_cell(
    img: Image,
    x0: int,
    y0: int,
    src_w: int,
    src_h: int,
    scaled_w: int,
    scaled_h: int,
    cx: int,
    cy: int,
) -> Cell {
    let sx = spec_sample_x(x0, src_w, scaled_w, cx);
    Cell::spec_half_block(
        img.spec_pixel(sx, spec_sample_y(y0, src_h, img.height as int, scaled_h, 2 * cy)),
        img.spec_pixel(sx, spec_sample_y(y0, src_h, img.height as int, scaled_h, 2 * cy + 1)),
    )
}

/// The value one render pass leaves in the target-area cell at grid
/// coordinates `(gx, gy)`: an image cell with two samples where the
/// centered scaled image covers it, the blank state everywhere else.
pub open spec fn spec_rendered_cell(
    img: Image,
    v: ViewState,
    area: TargetArea,
    gx: int,
    gy: int,
) -> Cell {
    let iw = img.width as int;
    let ih = img.height as int;
    let src_w = spec_src_w(iw, v);
    let src_h = spec_src_h(ih, v);
    let x0 = spec_src_x0(iw, v);
    let y0 = spec_src_y0(ih, v);
    let tpw = area.width_cells as int;
    let tph = 2 * area.height_cells as int;
    let scaled_w = spec_scaled_w(src_w, src_h, tpw, tph);
    let scaled_h = spec_scaled_h(src_w, src_h, tpw, tph);
    let cells_h = spec_cells_h(scaled_h);
    let off_x = spec_offset(tpw, scaled_w);
    let off_y = spec_offset(area.height_cells as int, cells_h);
    let cx = gx - area.x - off_x;
    let cy = gy - area.y - off_y;
    if 0 <= cx < scaled_w && 0 <= cy < cells_h {
        spec_region_cell(img, x0, y0, src_w, src_h, scaled_w, scaled_h, cx, cy)
    } else {
        Cell::spec_blank()
    }
}

/// The geometric facts `raster_row` needs of a resolved rectangle and a
/// computed layout.
pub open spec fn spec_raster_pre(
    img: Image,
    rect: SourceRect,
    layout: ScaledLayout,
    area: TargetArea,
) -> bool {
    &&& img.wf()
    &&& rect.w >= 1
    &&& rect.h >= 1
    &&& rect.x0 + rect.w <= img.width
    &&& rect.y0 + rect.h <= img.height
    &&& layout.cells_w == layout.scaled_w
    &&& layout.cells_h as int == spec_cells_h(layout.scaled_h as int)
    &&& layout.offset_x + layout.cells_w <= area.width_cells
    &&& layout.offset_y + layout.cells_h <= area.height_cells
}

/// Draws one cell row of the scaled region, leaving every cell outside that
/// row segment unchanged.
#[verifier::loop_isolation(false)]
fn raster_row(
    img: &Image,
    rect: SourceRect,
    layout: ScaledLayout,
    area: TargetArea,
    cy: u16,
    buf: &mut CellGrid,
)
    requires
        old(buf).wf(),
        area.spec_fits(old(buf).width as int, old(buf).height as int),
        spec_raster_pre(*img, rect, layout, area),
        cy < layout.cells_h,
    ensures
        final(buf).wf(),
        final(buf).width == old(buf).width,
        final(buf).height == old(buf).height,
        forall|cx: int|
            0 <= cx < layout.cells_w ==> final(buf).spec_cell(
                area.x + layout.offset_x + cx,
                area.y + layout.offset_y + cy,
            ) == spec_region_cell(
                *img,
                rect.x0 as int,
                rect.y0 as int,
                rect.w as int,
                rect.h as int,
                layout.scaled_w as int,
                layout.scaled_h as int,
                cx,
                cy as int,
            ),
        forall|gx: int, gy: int|
            0 <= gx < final(buf).width && 0 <= gy < final(buf).height && !(gy == area.y
                + layout.offset_y + cy && area.x + layout.offset_x <= gx < area.x + layout.offset_x
                + layout.cells_w) ==> final(buf).spec_cell(gx, gy) == old(buf).spec_cell(gx, gy),
{
    proof {
        lemma_fundamental_div_mod(layout.scaled_h as int + 1, 2);
        lemma_mod_bound(layout.scaled_h as int + 1, 2);
        assert(2 * (cy as int) + 1 <= layout.scaled_h);
    }
    let row2_top: u64 = 2 * (cy as u64);
    let row2_bot: u64 = 2 * (cy as u64) + 1;
    let gy: u16 = area.y + layout.offset_y + cy;
    let mut cx: u16 = 0;
    while cx < layout.cells_w
        invariant
            buf.wf(),
            buf.width == old(buf).width,
            buf.height == old(buf).height,
            cx <= layout.cells_w,
            forall|c: int|
                0 <= c < cx ==> buf.spec_cell(area.x + layout.offset_x + c, gy as int)
                    == spec_region_cell(
                    *img,
                    rect.x0 as int,
                    rect.y0 as int,
                    rect.w as int,
                    rect.h as int,
                    layout.scaled_w as int,
                    layout.scaled_h as int,
                    c,
                    cy as int,
                ),
            forall|i: int, j: int|
                0 <= i < buf.width && 0 <= j < buf.height && !(j == gy && area.x + layout.offset_x
                    <= i < area.x + layout.offset_x + cx) ==> buf.spec_cell(i, j) == old(
                    buf,
                ).spec_cell(i, j),
        decreases layout.cells_w - cx,
    {
        proof {
            assert((2 * (cx as int) + 1) * (rect.w as int) <= 0x2_0000_0000_0000 && (2 * (cy as int)
                + 1) * (rect.h as int) <= 0x2_0000_0000_0000 && (2 * (cy as int)) * (rect.h as int)
                <= 0x2_0000_0000_0000) by (nonlinear_arith)
                requires
                    cx <= u16::MAX,
                    cy <= u16::MAX,
                    rect.w <= u32::MAX,
                    rect.h <= u32::MAX,
            ;
            assert((2 * (cx as int) + 1) * (rect.w as int) < (2 * (layout.scaled_w as int)) * (
            rect.w as int)) by (nonlinear_arith)
                requires
                    cx < layout.scaled_w,
                    rect.w >= 1,
            ;
            lemma_multiply_divide_lt(
                (2 * (cx as int) + 1) * (rect.w as int),
                2 * (layout.scaled_w as int),
                rect.w as int,
            );
            lemma_div_nonincreasing((row2_top as int) * (rect.h as int), layout.scaled_h as int);
            lemma_div_nonincreasing((row2_bot as int) * (rect.h as int), layout.scaled_h as int);
        }
        let fx: u64 = ((2 * (cx as u64) + 1) * (rect.w as u64)) / (2 * (layout.scaled_w as u64));
        let sx: u32 = rect.x0 + (fx as u32);
        let ty_top: u64 = (rect.y0 as u64) + (row2_top * (rect.h as u64)) / (
        layout.scaled_h as u64);
        let ty_bot: u64 = (rect.y0 as u64) + (row2_bot * (rect.h as u64)) / (
        layout.scaled_h as u64);
        let last_row: u32 = img.height - 1;
        let top_y: u32 = if ty_top > last_row as u64 {
            last_row
        } else {
            ty_top as u32
        };
        let bot_y: u32 = if ty_bot > last_row as u64 {
            last_row
        } else {
            ty_bot as u32
        };
        let cell: Cell = Cell::half_block(img.pixel(sx, top_y), img.pixel(sx, bot_y));
        buf.set(area.x + layout.offset_x + cx, gy, cell);
        cx = cx + 1;
    }
}

/// Cell rasterizer: draws every cell of the scaled region, leaving the rest
/// of the grid unchanged.
#[verifier::loop_isolation(false)]
fn raster_cells(
    img: &Image,
    rect: SourceRect,
    layout: ScaledLayout,
    area: TargetArea,
    buf: &mut CellGrid,
)
    requires
        old(buf).wf(),
        area.spec_fits(old(buf).width as int, old(buf).height as int),
        spec_raster_pre(*img, rect, layout, area),
    ensures
        final(buf).wf(),
        final(buf).width == old(buf).width,
        final(buf).height == old(buf).height,
        forall|cx: int, cy: int|
            0 <= cx < layout.cells_w && 0 <= cy < layout.cells_h ==> final(buf).spec_cell(
                area.x + layout.offset_x + cx,
                area.y + layout.offset_y + cy,
            ) == spec_region_cell(
                *img,
                rect.x0 as int,
                rect.y0 as int,
                rect.w as int,
                rect.h as int,
                layout.scaled_w as int,
                layout.scaled_h as int,
                cx,
                cy,
            ),
        forall|gx: int, gy: int|
            0 <= gx < final(buf).width && 0 <= gy < final(buf).height && !(area.x + layout.offset_x
                <= gx < area.x + layout.offset_x + layout.cells_w && area.y + layout.offset_y <= gy
                < area.y + layout.offset_y + layout.cells_h) ==> final(buf).spec_cell(gx, gy)
                == old(buf).spec_cell(gx, gy),
{
    let mut cy: u16 = 0;
    while cy < layout.cells_h
        invariant
            buf.wf(),
            buf.width == old(buf).width,
            buf.height == old(buf).height,
            cy <= layout.cells_h,
            forall|c: int, r: int|
                0 <= c < layout.cells_w && 0 <= r < cy ==> buf.spec_cell(
                    area.x + layout.offset_x + c,
                    area.y + layout.offset_y + r,
                ) == spec_region_cell(
                    *img,
                    rect.x0 as int,
                    rect.y0 as int,
                    rect.w as int,
                    rect.h as int,
                    layout.scaled_w as int,
                    layout.scaled_h as int,
                    c,
                    r,
                ),
            forall|gx: int, gy: int|
                0 <= gx < buf.width && 0 <= gy < buf.height && !(area.x + layout.offset_x <= gx
                    < area.x + layout.offset_x + layout.cells_w && area.y + layout.offset_y <= gy
                    < area.y + layout.offset_y + cy) ==> buf.spec_cell(gx, gy) == old(
                    buf,
                ).spec_cell(gx, gy),
        decreases layout.cells_h - cy,
    {
        raster_row(img, rect, layout, area, cy, buf);
        cy = cy + 1;
    }
}

impl Image {
    /// One full render pass: resolves the visible source rectangle for the
    /// view, scales it uniformly into the target area, blanks the whole
    /// area, and draws the centered scaled image cell by cell.
    ///
    /// Every cell of the target area ends up written exactly once — with an
    /// image cell where the scaled image covers it, the blank state
    /// elsewhere — and no cell outside the target area is touched. A
    /// zero-sized target area leaves the grid unchanged.
    pub fn render_image(&self, view: &ViewState, area: TargetArea, buf: &mut CellGrid)
        requires
            self.wf(),
            view.wf(),
            old(buf).wf(),
            area.spec_fits(old(buf).width as int, old(buf).height as int),
        ensures
            final(buf).wf(),
            final(buf).width == old(buf).width,
            final(buf).height == old(buf).height,
            forall|gx: int, gy: int|
                area.spec_contains(gx, gy) ==> final(buf).spec_cell(gx, gy) == spec_rendered_cell(
                    *self,
                    *view,
                    area,
                    gx,
                    gy,
                ),
            forall|gx: int, gy: int|
                0 <= gx < final(buf).width && 0 <= gy < final(buf).height && !area.spec_contains(
                    gx,
                    gy,
                ) ==> final(buf).spec_cell(gx, gy) == old(buf).spec_cell(gx, gy),
    {
        let rect = resolve_viewport(self.width, self.height, view);
        let layout = compute_scale(rect.w, rect.h, area.width_cells, area.height_cells);
        clear_area(buf, area);
        raster_cells(self, rect, layout, area, buf);
        proof {
            assert forall|gx: int, gy: int| area.spec_contains(gx, gy) implies buf.spec_cell(
                gx,
                gy,
            ) == spec_rendered_cell(*self, *view, area, gx, gy) by {
                let cx = gx - area.x - layout.offset_x;
                let cy = gy - area.y - layout.offset_y;
                if 0 <= cx < layout.cells_w && 0 <= cy < layout.cells_h {
                    assert(buf.spec_cell(
                        area.x + layout.offset_x + cx,
                        area.y + layout.offset_y + cy,
                    ) == spec_region_cell(
                        *self,
                        rect.x0 as int,
                        rect.y0 as int,
                        rect.w as int,
                        rect.h as int,
                        layout.scaled_w as int,
                        layout.scaled_h as int,
                        cx,
                        cy,
                    ));
                } else {
                    assert(buf.spec_cell(gx, gy) == Cell::spec_blank());
                }
            }
        }
    }
}

} // verus!
