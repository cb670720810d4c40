//! A viewport-to-cell rasterization engine for showing a still image on a
//! character-cell terminal.
//!
//! The engine maps a zoomed and panned rectangle of an RGB pixel grid onto a
//! grid of terminal cells, doubling the vertical resolution by encoding two
//! stacked pixel rows in one glyph (the upper-half block, colored by its
//! foreground and background). A render pass runs four stages: resolve the
//! visible source rectangle, compute a uniform scale that fits it into the
//! target area, blank the whole target area, and rasterize each covered cell
//! from two nearest-neighbor samples.

pub mod image;
pub mod input;
pub mod render;
pub mod rounding;
pub mod scale;
pub mod view;
pub mod viewport;
