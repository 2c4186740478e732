//! Glyphs: how one is asked for, what FreeType reports of it, and its
//! dimensions in pixels.
use vstd::prelude::*;

use crate::fixed::{f26dot6_to_i32_rounding_up, floor, i32_to_u32, pixel_floor, wrap_i32, wrap_u32, F26Dot6};
use crate::geometry::{translate, BBox, Point, Size};

verus! {

/// A font at a size.
///
/// `size` is the size in points, and `stem_darkening_radius` tells how far stem
/// darkening reaches at that size, in whole pixels, rounded up.
pub struct FontInstance<FK> {
    pub font_key: FK,
    pub size: F26Dot6,
    pub stem_darkening_radius: i32,
}

/// A glyph of a font, and its horizontal position within a pixel.
#[derive(Clone, Copy, Debug, PartialEq, Eq, Structural)]
pub struct GlyphKey {
    pub glyph_index: u32,
    pub subpixel_offset: F26Dot6,
}

/// Asks for a glyph: set the size of `face`, then load the glyph into its slot.
///
/// A size or a resolution of zero stands for the other one.
pub struct GlyphRequest<'a, H> {
    pub face: &'a H,
    pub char_width: F26Dot6,
    pub char_height: F26Dot6,
    pub horizontal_resolution: u32,
    pub vertical_resolution: u32,
    pub glyph_index: u32,
    pub load_flags: i32,
}

/// What the slot of a face holds after a load: the format of the glyph, its
/// horizontal advance, the box of the outline's control points, and the outline,
/// in whichever form the caller handles it.
pub struct GlyphSlot<O> {
    pub format: u32,
    pub hori_advance: F26Dot6,
    pub control_box: BBox,
    pub outline: O,
}

/// What FreeType answers to a [`GlyphRequest`]: an error code, zero for success,
/// and the slot of the face.
pub struct GlyphReply<O> {
    pub error: i32,
    pub slot: GlyphSlot<O>,
}

/// The outline of a loaded glyph.
pub struct Outline<'a, O> {
    pub outline: &'a O,
}

impl<'a, O> Outline<'a, O> {
    /// Refers to `outline`.
    pub fn new(outline: &'a O) -> (r: Outline<'a, O>)
        ensures
            r.outline == outline,
    {
        Outline { outline: outline }
    }
}

/// The outline of a glyph, as long as the glyph stays in its slot.
pub type GlyphOutline<'a, O> = Outline<'a, O>;

/// The extents of a glyph.
///
/// `origin` and `size` are in whole pixels. `advance` is the horizontal advance
/// as FreeType reports it, in 1/64.
#[derive(Clone, Copy, Debug, PartialEq, Eq, Structural)]
pub struct GlyphDimensions {
    pub origin: Point,
    pub size: Size,
    pub advance: F26Dot6,
}

/// A rasterized glyph: four bytes to a pixel, row by row from the top.
pub struct GlyphImage {
    pub dimensions: GlyphDimensions,
    pub pixels: Vec<u8>,
}

/// The upper ends of the box can be rounded up to whole pixels within 64 bits.
pub open spec fn box_fits(control_box: BBox) -> bool {
    &&& control_box.x_max + 63 <= i64::MAX
    &&& control_box.y_max + 63 <= i64::MAX
}

/// Returns the bounding box for a glyph: the box of its control points, outset to
/// pixel boundaries.
pub fn bounding_box_from_slot<O>(slot: &GlyphSlot<O>) -> (r: BBox)
    requires
        box_fits(slot.control_box),
    ensures
        r.x_min == pixel_floor(slot.control_box.x_min as int),
        r.y_min == pixel_floor(slot.control_box.y_min as int),
        r.x_max == pixel_floor(slot.control_box.x_max + 63),
        r.y_max == pixel_floor(slot.control_box.y_max + 63),
{
    let mut bounding_box: BBox = slot.control_box;
    bounding_box.x_min = floor(bounding_box.x_min);
    bounding_box.y_min = floor(bounding_box.y_min);
    bounding_box.x_max = floor(bounding_box.x_max + 0x3f);
    bounding_box.y_max = floor(bounding_box.y_max + 0x3f);
    bounding_box
}

/// The margin around the outline that its pixels may reach: none for the raw
/// outline, the reach of stem darkening otherwise.
pub open spec fn margin<FK>(font_instance: FontInstance<FK>, exact: bool) -> int {
    if exact {
        0
    } else {
        font_instance.stem_darkening_radius as int
    }
}

/// The pixel in which `min` lies, less the margin.
pub open spec fn lower_pixel(min: int, margin: int) -> int {
    wrap_i32(min / 64) - margin
}

/// The pixel boundary at or above `max`, plus the margin.
pub open spec fn upper_pixel(max: int, margin: int) -> int {
    wrap_i32((max + 63) / 64) + margin
}

/// The number of pixels from `min` to `max`, with the margin on either side, as an
/// unsigned 32-bit number.
pub open spec fn extent(min: int, max: int, margin: int) -> int {
    wrap_u32(upper_pixel(max, margin) - lower_pixel(min, margin))
}

/// The value is within `i32`.
pub open spec fn fits_i32(v: int) -> bool {
    i32::MIN <= v <= i32::MAX
}

/// The corners in pixels and their differences are within 32 bits.
pub open spec fn extents_fit(control_box: BBox, margin: int) -> bool {
    &&& box_fits(control_box)
    &&& fits_i32(-margin)
    &&& fits_i32(lower_pixel(control_box.x_min as int, margin))
    &&& fits_i32(lower_pixel(control_box.y_min as int, margin))
    &&& fits_i32(upper_pixel(control_box.x_max as int, margin))
    &&& fits_i32(upper_pixel(control_box.y_max as int, margin))
    &&& fits_i32(
        upper_pixel(control_box.x_max as int, margin) - lower_pixel(
            control_box.x_min as int,
            margin,
        ),
    )
    &&& fits_i32(
        upper_pixel(control_box.y_max as int, margin) - lower_pixel(
            control_box.y_min as int,
            margin,
        ),
    )
}

/// The extents are within 32 bits, and so is the number of pixels in them.
pub open spec fn image_fits(control_box: BBox, margin: int) -> bool {
    &&& extents_fit(control_box, margin)
    &&& extent(control_box.x_min as int, control_box.x_max as int, margin) * extent(
        control_box.y_min as int,
        control_box.y_max as int,
        margin,
    ) <= u32::MAX
}

impl GlyphDimensions {
    /// These are the dimensions of a glyph with these control points and this
    /// advance, with a margin around it.
    pub open spec fn measure(self, control_box: BBox, margin: int, hori_advance: F26Dot6) -> bool {
        &&& self.origin.x == lower_pixel(control_box.x_min as int, margin)
        &&& self.origin.y == lower_pixel(control_box.y_min as int, margin)
        &&& self.size.width == extent(control_box.x_min as int, control_box.x_max as int, margin)
        &&& self.size.height == extent(control_box.y_min as int, control_box.y_max as int, margin)
        &&& self.advance == hori_advance
    }
}

/// The lower left and the upper right corner of the bounding box, in pixels.
fn corners<O>(slot: &GlyphSlot<O>) -> (r: (Point, Point))
    requires
        box_fits(slot.control_box),
    ensures
        r.0.x == lower_pixel(slot.control_box.x_min as int, 0),
        r.0.y == lower_pixel(slot.control_box.y_min as int, 0),
        r.1.x == upper_pixel(slot.control_box.x_max as int, 0),
        r.1.y == upper_pixel(slot.control_box.y_max as int, 0),
{
    let bounding_box: BBox = bounding_box_from_slot(slot);
    let lower_left: Point = Point {
        x: f26dot6_to_i32_rounding_up(bounding_box.x_min),
        y: f26dot6_to_i32_rounding_up(bounding_box.y_min),
    };
    let upper_right: Point = Point {
        x: f26dot6_to_i32_rounding_up(bounding_box.x_max),
        y: f26dot6_to_i32_rounding_up(bounding_box.y_max),
    };
    (lower_left, upper_right)
}

/// Tells whether the extents of the outline are within 32 bits.
pub fn can_measure<FK, O>(
    font_instance: &FontInstance<FK>,
    slot: &GlyphSlot<O>,
    exact: bool,
) -> (r: bool)
    ensures
        r == extents_fit(slot.control_box, margin(*font_instance, exact)),
{
    if slot.control_box.x_max > i64::MAX - 63 || slot.control_box.y_max > i64::MAX - 63 {
        return false;
    }
    let corners: (Point, Point) = corners(slot);
    let margin: i64 = if exact { 0 } else { font_instance.stem_darkening_radius as i64 };
    let left: i64 = corners.0.x as i64 - margin;
    let bottom: i64 = corners.0.y as i64 - margin;
    let right: i64 = corners.1.x as i64 + margin;
    let top: i64 = corners.1.y as i64 + margin;
    within_i32(-margin) && within_i32(left) && within_i32(bottom) && within_i32(right)
        && within_i32(top) && within_i32(right - left) && within_i32(top - bottom)
}

/// Tells whether the value is within `i32`.
fn within_i32(v: i64) -> (r: bool)
    ensures
        r == fits_i32(v as int),
{
    i32::MIN as i64 <= v && v <= i32::MAX as i64
}

/// The [`margin`] around the outline.
pub(crate) fn outline_margin<FK>(font_instance: &FontInstance<FK>, exact: bool) -> (r: i32)
    ensures
        r == margin(*font_instance, exact),
{
    if exact {
        0
    } else {
        font_instance.stem_darkening_radius
    }
}

/// Measures a glyph that lies in its slot as an outline, whatever its advance.
///
/// If `exact` is true, the extents are the raw extents of the outline; otherwise
/// they account for stem darkening.
pub fn measure_outline<FK, O>(
    font_instance: &FontInstance<FK>,
    slot: &GlyphSlot<O>,
    exact: bool,
) -> (r: GlyphDimensions)
    requires
        extents_fit(slot.control_box, margin(*font_instance, exact)),
    ensures
        r.measure(slot.control_box, margin(*font_instance, exact), slot.hori_advance),
{
    let corners: (Point, Point) = corners(slot);
    let mut lower_left: Point = corners.0;
    let mut upper_right: Point = corners.1;
    // Account for stem darkening.
    if !exact {
        let radius: i32 = font_instance.stem_darkening_radius;
        lower_left = translate(lower_left, -radius, -radius);
        upper_right = translate(upper_right, radius, radius);
    }
    GlyphDimensions {
        origin: lower_left,
        size: Size {
            width: i32_to_u32(upper_right.x - lower_left.x),
            height: i32_to_u32(upper_right.y - lower_left.y),
        },
        advance: slot.hori_advance,
    }
}

/// Tells whether the extents of the outline, and the number of pixels in them, are
/// within 32 bits.
pub fn can_frame<FK, O>(
    font_instance: &FontInstance<FK>,
    slot: &GlyphSlot<O>,
    exact: bool,
) -> (r: bool)
    ensures
        r == image_fits(slot.control_box, margin(*font_instance, exact)),
{
    if !can_measure(font_instance, slot, exact) {
        return false;
    }
    let dimensions: GlyphDimensions = measure_outline(font_instance, slot, exact);
    let width: u64 = dimensions.size.width as u64;
    let height: u64 = dimensions.size.height as u64;
    assert(width * height <= 0xffff_ffff * 0xffff_ffff) by (nonlinear_arith)
        requires
            0 <= width <= 0xffff_ffff,
            0 <= height <= 0xffff_ffff,
    ;
    width * height <= u32::MAX as u64
}

/// Returns the dimensions of a glyph that lies in its slot as an outline.
///
/// A glyph without a horizontal advance has none. If `exact` is true, these are
/// the raw extents of the outline; otherwise they account for stem darkening.
pub fn glyph_dimensions_from_slot<FK, O>(
    font_instance: &FontInstance<FK>,
    slot: &GlyphSlot<O>,
    exact: bool,
) -> (r: Result<GlyphDimensions, ()>)
    requires
        slot.hori_advance != 0 ==> extents_fit(slot.control_box, margin(*font_instance, exact)),
    ensures
        r is Err <==> slot.hori_advance == 0,
        r matches Ok(dimensions) ==> dimensions.measure(
            slot.control_box,
            margin(*font_instance, exact),
            slot.hori_advance,
        ),
{
    if slot.hori_advance == 0 {
        return Err(());
    }
    Ok(measure_outline(font_instance, slot, exact))
}

} // verus!
