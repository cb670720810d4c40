//! The pixel source: an immutable-after-load grid of RGB pixels.

use vstd::prelude::*;

verus! {

/// One pixel: a three-channel RGB color.
#[derive(Clone, Copy, PartialEq, Eq, Structural, Debug)]
pub struct Rgb {
    pub r: u8,
    pub g: u8,
    pub b: u8,
}

/// The one way loading an image can go wrong inside the engine: the grid is
/// empty, or the buffer does not hold exactly `width * height` pixels.
#[derive(Clone, Copy, PartialEq, Eq, Structural, Debug)]
pub enum ImageError {
    InvalidImage,
}

/// A decoded image: `width * height` pixels in row-major order.
pub struct Image {
    pub width: u32,
    pub height: u32,
    pub pixels: Vec<Rgb>,
}

impl Image {
    /// A well-formed image is at least one pixel in each dimension and its
    /// buffer holds exactly one pixel per coordinate.
    pub open spec fn wf(&self) -> bool {
        &&& self.width >= 1
        &&& self.height >= 1
        &&& self.pixels@.len() == self.width * self.height
    }

    /// The pixel at column `x`, row `y` of the row-major buffer.
    pub open spec fn spec_pixel(&self, x: int, y: int) -> Rgb {
        self.pixels@[y * self.width + x]
    }

    /// Builds an image from decoded pixel data, rejecting an empty grid or a
    /// buffer whose length does not match the dimensions.
    pub fn new(width: u32, height: u32, pixels: Vec<Rgb>) -> (r: Result<Image, ImageError>)
        ensures
            match r {
                Ok(img) => {
                    &&& width >= 1
                    &&& height >= 1
                    &&& pixels@.len() == width * height
                    &&& img.width == width
                    &&& img.height == height
                    &&& img.pixels@ == pixels@
                    &&& img.wf()
                },
                Err(e) => {
                    &&& e == ImageError::InvalidImage
                    &&& !(width >= 1 && height >= 1 && pixels@.len() == width * height)
                },
            },
    {
        if width == 0 || height == 0 {
            return Err(ImageError::InvalidImage);
        }
        proof {
            assert((width as int) * (height as int) <= u64::MAX) by (nonlinear_arith)
                requires
                    width <= u32::MAX,
                    height <= u32::MAX,
            ;
        }
        let expected: u64 = (width as u64) * (height as u64);
        if (pixels.len() as u64) != expected {
            return Err(ImageError::InvalidImage);
        }
        Ok(Image { width, height, pixels })
    }

    /// Reads the pixel at column `x`, row `y`.
    pub fn pixel(&self, x: u32, y: u32) -> (p: Rgb)
        requires
            self.wf(),
            x < self.width,
            y < self.height,
        ensures
            p == self.spec_pixel(x as int, y as int),
    {
        let n: usize = self.pixels.len();
        proof {
            assert((y as int) * (self.width as int) + (x as int) < (self.width as int) * (
            self.height as int)) by (nonlinear_arith)
                requires
                    x < self.width,
                    y < self.height,
            ;
        }
        let idx: usize = (y as usize) * (self.width as usize) + (x as usize);
        self.pixels[idx]
    }
}

} // verus!
