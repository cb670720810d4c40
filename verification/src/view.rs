//! The view the user has chosen: a zoom factor and a pan offset.
//!
//! Zoom is an exact rational `num / den`, so the viewport arithmetic can be
//! carried out exactly in integers. A zoom of one shows the whole image;
//! larger zooms show a smaller, centered region.

use vstd::prelude::*;

verus! {

/// A positive rational zoom factor, `num / den`.
#[derive(Clone, Copy, PartialEq, Eq, Structural, Debug)]
pub struct Zoom {
    pub num: u32,
    pub den: u32,
}

impl Zoom {
    /// Both sides of the ratio are at least one, so the factor is positive.
    pub open spec fn wf(&self) -> bool {
        &&& self.num >= 1
        &&& self.den >= 1
    }

    pub fn new(num: u32, den: u32) -> (z: Zoom)
        requires
            num >= 1,
            den >= 1,
        ensures
            z.num == num,
            z.den == den,
            z.wf(),
    {
        Zoom { num, den }
    }

    /// The identity zoom: the full image is visible.
    pub fn one() -> (z: Zoom)
        ensures
            z.num == 1,
            z.den == 1,
            z.wf(),
    {
        Zoom { num: 1, den: 1 }
    }
}

/// What the user is looking at: a zoom factor and a pan offset in image
/// pixels, applied relative to the centered view.
#[derive(Clone, Copy, PartialEq, Eq, Structural, Debug)]
pub struct ViewState {
    pub zoom: Zoom,
    pub pan_x: i32,
    pub pan_y: i32,
}

impl ViewState {
    pub open spec fn wf(&self) -> bool {
        self.zoom.wf()
    }

    pub fn new(zoom: Zoom, pan_x: i32, pan_y: i32) -> (v: ViewState)
        requires
            zoom.wf(),
        ensures
            v == (ViewState { zoom, pan_x, pan_y }),
            v.wf(),
    {
        ViewState { zoom, pan_x, pan_y }
    }

    /// The view a freshly loaded image starts with: no zoom, no pan.
    pub fn initial() -> (v: ViewState)
        ensures
            v.zoom.num == 1,
            v.zoom.den == 1,
            v.pan_x == 0,
            v.pan_y == 0,
            v.wf(),
    {
        ViewState { zoom: Zoom { num: 1, den: 1 }, pan_x: 0, pan_y: 0 }
    }
}

} // verus!
