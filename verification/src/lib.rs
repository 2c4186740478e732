//! Font loading and glyph measurement on top of FreeType.
//!
//! The crate decides; the caller talks to FreeType. A question that only
//! FreeType can answer leaves the crate as a request made of plain values, and
//! the answer comes back as a reply, on which the next function works:
//!
//! * [`context`] keeps the loaded faces by font key and turns replies into
//!   results;
//! * [`glyph`] computes the pixel dimensions of a loaded glyph;
//! * [`raster`] prepares the outline for the LCD rasterizer and unpacks the
//!   bitmap that it leaves;
//! * [`fixed`] and [`geometry`] hold the arithmetic on 26.6 coordinates, points
//!   and sizes;
//! * [`laws`] states what holds across several of these functions, and
//!   [`operations`] what each call comes to in plain numbers and bytes.
pub mod context;
pub mod face;
pub mod fixed;
pub mod freetype;
pub mod geometry;
pub mod glyph;
pub mod laws;
pub mod operations;
pub mod raster;
