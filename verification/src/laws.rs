//! What holds across several functions of the crate.
use std::sync::Arc;

use vstd::arithmetic::div_mod::lemma_fundamental_div_mod_converse;
use vstd::prelude::*;

use crate::context::{add_succeeds, faces_after_add, glyph_loads, lawful_key};
use crate::face::{Face, FaceReply};
use crate::fixed::{nearest_pixel, pixel_floor, wrap_i32, wrap_u32, F26Dot6};
use crate::geometry::BBox;
use crate::glyph::{
    extent, extents_fit, lower_pixel, upper_pixel, FontInstance, GlyphDimensions, GlyphImage, GlyphReply,
};
use crate::raster::{
    byte_in_order, byte_of, bytes_in_order, inverted, lemma_within, origin_offset, ByteOrder, RenderedGlyph,
};

verus! {

/// Integers are keys that tell fonts apart.
pub proof fn law_integers_are_lawful_keys()
    ensures
        lawful_key::<u8>(),
        lawful_key::<u16>(),
        lawful_key::<u32>(),
        lawful_key::<u64>(),
        lawful_key::<usize>(),
        lawful_key::<i8>(),
        lawful_key::<i16>(),
        lawful_key::<i32>(),
        lawful_key::<i64>(),
        lawful_key::<isize>(),
{
}

/// Adding a font succeeds exactly where the font is loaded afterwards.
pub proof fn law_added_font_is_loaded<FK, H>(
    faces: Map<FK, Face<H>>,
    font_key: FK,
    bytes: Option<Arc<Vec<u8>>>,
    reply: Option<FaceReply<H>>,
)
    ensures
        add_succeeds(faces, font_key, reply) <==> faces_after_add(
            faces,
            font_key,
            bytes,
            reply,
        ).contains_key(font_key),
{
}

/// A failed attempt to add a font changes nothing.
pub proof fn law_failed_add_changes_nothing<FK, H>(
    faces: Map<FK, Face<H>>,
    font_key: FK,
    bytes: Option<Arc<Vec<u8>>>,
    reply: Option<FaceReply<H>>,
)
    requires
        !add_succeeds(faces, font_key, reply),
    ensures
        faces_after_add(faces, font_key, bytes, reply) == faces,
{
}

/// If a font with the same key is already loaded, adding a font does nothing and
/// succeeds, whatever data and whatever face come with it.
pub proof fn law_loaded_font_stays<FK, H>(
    faces: Map<FK, Face<H>>,
    font_key: FK,
    bytes: Option<Arc<Vec<u8>>>,
    reply: Option<FaceReply<H>>,
)
    requires
        faces.contains_key(font_key),
    ensures
        add_succeeds(faces, font_key, reply),
        faces_after_add(faces, font_key, bytes, reply) == faces,
{
}

/// Once a font was added, adding one under the same key again does nothing and
/// succeeds.
pub proof fn law_second_add_does_nothing<FK, H>(
    faces: Map<FK, Face<H>>,
    font_key: FK,
    bytes: Option<Arc<Vec<u8>>>,
    reply: Option<FaceReply<H>>,
    other_bytes: Option<Arc<Vec<u8>>>,
    other_reply: Option<FaceReply<H>>,
)
    requires
        add_succeeds(faces, font_key, reply),
    ensures
        ({
            let once = faces_after_add(faces, font_key, bytes, reply);
            &&& add_succeeds(once, font_key, other_reply)
            &&& faces_after_add(once, font_key, other_bytes, other_reply) == once
        }),
{
}

/// A newly added font keeps the face that was opened and the data that the face
/// reads.
pub proof fn law_new_font_keeps_face_and_data<FK, H>(
    faces: Map<FK, Face<H>>,
    font_key: FK,
    bytes: Option<Arc<Vec<u8>>>,
    reply: Option<FaceReply<H>>,
)
    requires
        !faces.contains_key(font_key),
        add_succeeds(faces, font_key, reply),
    ensures
        faces_after_add(faces, font_key, bytes, reply)[font_key] == (Face {
            face: reply->0.face->0,
            bytes: bytes,
        }),
{
}

/// Adding a font leaves every other font as it is.
pub proof fn law_add_keeps_other_fonts<FK, H>(
    faces: Map<FK, Face<H>>,
    font_key: FK,
    bytes: Option<Arc<Vec<u8>>>,
    reply: Option<FaceReply<H>>,
    other: FK,
)
    requires
        other != font_key,
    ensures
        faces_after_add(faces, font_key, bytes, reply).contains_key(other) <==> faces.contains_key(
            other,
        ),
        faces.contains_key(other) ==> faces_after_add(faces, font_key, bytes, reply)[other]
            == faces[other],
{
}

/// The order in which two fonts with different keys are added does not matter.
pub proof fn law_adds_commute<FK, H>(
    faces: Map<FK, Face<H>>,
    first: FK,
    first_bytes: Option<Arc<Vec<u8>>>,
    first_reply: Option<FaceReply<H>>,
    second: FK,
    second_bytes: Option<Arc<Vec<u8>>>,
    second_reply: Option<FaceReply<H>>,
)
    requires
        first != second,
    ensures
        faces_after_add(
            faces_after_add(faces, first, first_bytes, first_reply),
            second,
            second_bytes,
            second_reply,
        ) == faces_after_add(
            faces_after_add(faces, second, second_bytes, second_reply),
            first,
            first_bytes,
            first_reply,
        ),
{
    assert(faces_after_add(
        faces_after_add(faces, first, first_bytes, first_reply),
        second,
        second_bytes,
        second_reply,
    ) =~= faces_after_add(
        faces_after_add(faces, second, second_bytes, second_reply),
        first,
        first_bytes,
        first_reply,
    ));
}

/// Deleting a font undoes adding it.
pub proof fn law_delete_undoes_add<FK, H>(
    faces: Map<FK, Face<H>>,
    font_key: FK,
    bytes: Option<Arc<Vec<u8>>>,
    reply: Option<FaceReply<H>>,
)
    requires
        !faces.contains_key(font_key),
    ensures
        faces_after_add(faces, font_key, bytes, reply).remove(font_key) == faces,
{
    assert(faces_after_add(faces, font_key, bytes, reply).remove(font_key) =~= faces);
}

/// Deleting a font that isn't loaded does nothing.
pub proof fn law_delete_of_unknown_font_does_nothing<FK, H>(
    faces: Map<FK, Face<H>>,
    font_key: FK,
)
    requires
        !faces.contains_key(font_key),
    ensures
        faces.remove(font_key) == faces,
{
    assert(faces.remove(font_key) =~= faces);
}

/// A deleted font is not loaded, no glyph of it loads, and the other fonts stay as
/// they are.
pub proof fn law_deleted_font_is_gone<FK, H, O>(
    faces: Map<FK, Face<H>>,
    font_instance: FontInstance<FK>,
    reply: GlyphReply<O>,
    other: FK,
)
    ensures
        !faces.remove(font_instance.font_key).contains_key(font_instance.font_key),
        !glyph_loads(faces.remove(font_instance.font_key), font_instance, reply),
        other != font_instance.font_key ==> {
            &&& faces.remove(font_instance.font_key).contains_key(other) <==> faces.contains_key(
                other,
            )
            &&& faces.contains_key(other) ==> faces.remove(font_instance.font_key)[other]
                == faces[other]
        },
{
}

/// Rounding down to whole pixels lands on a pixel boundary, less than a pixel
/// below.
pub proof fn law_floor_is_pixel_boundary(x: int)
    ensures
        pixel_floor(x) % 64 == 0,
        pixel_floor(x) <= x < pixel_floor(x) + 64,
{
}

/// Rounding down twice is rounding down once.
pub proof fn law_floor_is_idempotent(x: int)
    ensures
        pixel_floor(pixel_floor(x)) == pixel_floor(x),
{
}

/// Rounding down keeps the order of coordinates.
pub proof fn law_floor_is_monotone(x: int, y: int)
    requires
        x <= y,
    ensures
        pixel_floor(x) <= pixel_floor(y),
{
}

/// A coordinate on a pixel boundary converts to its pixel exactly.
pub proof fn law_whole_pixels_convert_exactly(pixel: int)
    ensures
        nearest_pixel(64 * pixel) == pixel,
{
}

/// The conversion to pixels is off by half a pixel at most, and halfway between two
/// pixels it gives the lower one.
pub proof fn law_nearest_pixel_is_near(x: int)
    ensures
        -32 < x - 64 * nearest_pixel(x) <= 32,
{
}

/// Outset to pixel boundaries, an interval covers itself, and ends less than a
/// pixel further out on either side.
pub proof fn law_outset_covers_tightly(min: int, max: int)
    ensures
        min - 64 < pixel_floor(min) <= min,
        max <= pixel_floor(max + 63) < max + 64,
        pixel_floor(min) % 64 == 0,
        pixel_floor(max + 63) % 64 == 0,
{
}

/// A coordinate whose pixel, and the pixel boundary above it, are within 32 bits.
pub open spec fn pixel_in_range(x: int) -> bool {
    -0x20_0000_0000 <= x <= 0x20_0000_0000 - 64
}

/// The dimensions of a glyph cover its outline with the margin around it, and are
/// less than a pixel larger on each side, where the coordinates are within range.
pub proof fn law_dimensions_cover_outline(
    dimensions: GlyphDimensions,
    control_box: BBox,
    margin: int,
    hori_advance: F26Dot6,
)
    requires
        dimensions.measure(control_box, margin, hori_advance),
        extents_fit(control_box, margin),
        margin >= 0,
        control_box.x_min <= control_box.x_max,
        control_box.y_min <= control_box.y_max,
        pixel_in_range(control_box.x_min as int),
        pixel_in_range(control_box.x_max as int),
        pixel_in_range(control_box.y_min as int),
        pixel_in_range(control_box.y_max as int),
    ensures
        ({
            let left = 64 * (dimensions.origin.x + margin);
            let bottom = 64 * (dimensions.origin.y + margin);
            let right = 64 * (dimensions.origin.x + dimensions.size.width - margin);
            let top = 64 * (dimensions.origin.y + dimensions.size.height - margin);
            &&& control_box.x_min - 64 < left <= control_box.x_min
            &&& control_box.y_min - 64 < bottom <= control_box.y_min
            &&& control_box.x_max <= right < control_box.x_max + 64
            &&& control_box.y_max <= top < control_box.y_max + 64
        }),
{
    lemma_covers(control_box.x_min as int, control_box.x_max as int, margin);
    lemma_covers(control_box.y_min as int, control_box.y_max as int, margin);
}

/// Along one axis, the pixels cover the outline and its margin tightly.
proof fn lemma_covers(min: int, max: int, margin: int)
    requires
        min <= max,
        margin >= 0,
        pixel_in_range(min),
        pixel_in_range(max),
        upper_pixel(max, margin) - lower_pixel(min, margin) <= i32::MAX,
    ensures
        extent(min, max, margin) == upper_pixel(max, margin) - lower_pixel(min, margin),
        min - 64 < 64 * (lower_pixel(min, margin) + margin) <= min,
        max <= 64 * (upper_pixel(max, margin) - margin) < max + 64,
{
    assert(wrap_i32(min / 64) == min / 64);
    assert(wrap_i32((max + 63) / 64) == (max + 63) / 64);
}

/// Accounting for stem darkening moves the origin outwards by its reach, widens
/// and heightens the glyph by twice its reach, and leaves the advance.
pub proof fn law_darkening_dilates_evenly(
    exact: GlyphDimensions,
    darkened: GlyphDimensions,
    control_box: BBox,
    radius: i32,
    hori_advance: F26Dot6,
)
    requires
        exact.measure(control_box, 0, hori_advance),
        darkened.measure(control_box, radius as int, hori_advance),
    ensures
        darkened.origin.x == exact.origin.x - radius,
        darkened.origin.y == exact.origin.y - radius,
        darkened.size.width == wrap_u32(exact.size.width + 2 * radius),
        darkened.size.height == wrap_u32(exact.size.height + 2 * radius),
        darkened.advance == exact.advance,
{
    lemma_dilates(control_box.x_min as int, control_box.x_max as int, radius as int);
    lemma_dilates(control_box.y_min as int, control_box.y_max as int, radius as int);
}

/// Along one axis, a margin widens the extent by its double.
proof fn lemma_dilates(min: int, max: int, margin: int)
    ensures
        extent(min, max, margin) == wrap_u32(extent(min, max, 0) + 2 * margin),
{
    let raw = upper_pixel(max, 0) - lower_pixel(min, 0);
    assert(upper_pixel(max, margin) - lower_pixel(min, margin) == raw + 2 * margin);
    lemma_wrapped_sum(raw, 2 * margin);
}

/// Wrapping a summand first does not change a wrapped sum.
proof fn lemma_wrapped_sum(a: int, b: int)
    ensures
        wrap_u32(wrap_u32(a) + b) == wrap_u32(a + b),
{
}

/// Once moved, an outline begins in pixel zero: at its subpixel position within
/// the pixel in which it began.
pub proof fn law_moved_outline_begins_at_origin(min: int, subpixel_offset: int)
    ensures
        min + origin_offset(min, subpixel_offset) == (min + subpixel_offset) % 64,
        0 <= min + origin_offset(min, subpixel_offset) < 64,
{
}

/// Without a subpixel offset, an outline moves by whole pixels.
pub proof fn law_outline_moves_by_whole_pixels(min: int)
    ensures
        origin_offset(min, 0) % 64 == 0,
{
}

/// The bytes of a word, weighted by their places, make up the word.
pub proof fn law_bytes_make_up_word(word: u32)
    ensures
        word == byte_of(word, 0) + byte_of(word, 1) * 0x100 + byte_of(word, 2) * 0x1_0000 + byte_of(
            word,
            3,
        ) * 0x100_0000,
{
}

/// Words laid out as bytes can be read back: four bytes to a word, in either
/// order.
pub proof fn law_words_can_be_read_back(words: Seq<u32>, order: ByteOrder, i: int)
    requires
        0 <= i < words.len(),
    ensures
        bytes_in_order(words, order).len() == 4 * words.len(),
        forall|c: int|
            #![trigger byte_in_order(words[i], c, order)]
            0 <= c < 4 ==> bytes_in_order(words, order)[4 * i + c] == byte_in_order(
                words[i],
                c,
                order,
            ),
        ({
            let bytes = bytes_in_order(words, order);
            words[i] == match order {
                ByteOrder::LittleEndian => bytes[4 * i] + bytes[4 * i + 1] * 0x100 + bytes[4 * i
                    + 2] * 0x1_0000 + bytes[4 * i + 3] * 0x100_0000,
                ByteOrder::BigEndian => bytes[4 * i + 3] + bytes[4 * i + 2] * 0x100 + bytes[4 * i
                    + 1] * 0x1_0000 + bytes[4 * i] * 0x100_0000,
            }
        }),
{
    law_bytes_make_up_word(words[i]);
}

/// The image of a glyph has four bytes for each of its pixels.
pub proof fn law_image_is_full(
    image: GlyphImage,
    rendered: RenderedGlyph,
    margin: int,
    order: ByteOrder,
)
    requires
        image.shows(rendered, margin, order),
    ensures
        image.pixels@.len() == 4 * (image.dimensions.size.width * image.dimensions.size.height),
{
}

/// The four bytes of the pixel in column `x` of row `y` of an image, counted from the
/// upper left.
pub open spec fn pixel_bytes(image: GlyphImage, x: int, y: int) -> Seq<u8> {
    let at = 4 * (y * image.dimensions.size.width + x);
    image.pixels@.subrange(at, at + 4)
}

/// An opaque pixel that shows the inverse of three subpixels: last subpixel first
/// where the lowest byte comes first, and alpha first where the highest does.
pub open spec fn opaque_inverse(first: u8, second: u8, third: u8, order: ByteOrder) -> Seq<u8> {
    match order {
        ByteOrder::LittleEndian => seq![
            (255 - third) as u8,
            (255 - second) as u8,
            (255 - first) as u8,
            255u8,
        ],
        ByteOrder::BigEndian => seq![
            255u8,
            (255 - first) as u8,
            (255 - second) as u8,
            (255 - third) as u8,
        ],
    }
}

/// A pixel of an image is opaque and shows the inverse of the three subpixels that the
/// bitmap has at that place, or of three zero subpixels where the bitmap has none.
pub proof fn law_pixel_inverts_subpixels(
    image: GlyphImage,
    rendered: RenderedGlyph,
    margin: int,
    order: ByteOrder,
    x: int,
    y: int,
)
    requires
        image.shows(rendered, margin, order),
        rendered.readable(),
        0 <= x < image.dimensions.size.width,
        0 <= y < image.dimensions.size.height,
    ensures
        ({
            let column = rendered.bitmap_column(x, margin);
            let row = rendered.bitmap_row(y, image.dimensions.size.height as int, margin);
            let start = row * rendered.pitch + 3 * column;
            if rendered.covers(column, row) {
                &&& 0 <= start && start + 2 < rendered.buffer@.len()
                &&& pixel_bytes(image, x, y) == opaque_inverse(
                    rendered.buffer@[start],
                    rendered.buffer@[start + 1],
                    rendered.buffer@[start + 2],
                    order,
                )
            } else {
                pixel_bytes(image, x, y) == opaque_inverse(0, 0, 0, order)
            }
        }),
{
    let column = rendered.bitmap_column(x, margin);
    let row = rendered.bitmap_row(y, image.dimensions.size.height as int, margin);
    lemma_pixel_bytes(image, rendered, margin, order, x, y);
    if rendered.covers(column, row) {
        let pitch = rendered.pitch as int;
        let start = row * pitch + 3 * column;
        lemma_within(
            row,
            column,
            rendered.pixel_size().width as int,
            3,
            pitch,
            rendered.pixel_size().height as int,
        );
        lemma_inverted_bytes(
            rendered.buffer@[start],
            rendered.buffer@[start + 1],
            rendered.buffer@[start + 2],
        );
    } else {
        lemma_inverted_bytes(0, 0, 0);
    }
}

/// The bytes of a pixel of an image are those of the pixel that the bitmap has there.
pub(crate) proof fn lemma_pixel_bytes(
    image: GlyphImage,
    rendered: RenderedGlyph,
    margin: int,
    order: ByteOrder,
    x: int,
    y: int,
)
    requires
        image.shows(rendered, margin, order),
        0 <= x < image.dimensions.size.width,
        0 <= y < image.dimensions.size.height,
    ensures
        ({
            let word = rendered.pixel(
                rendered.bitmap_column(x, margin),
                rendered.bitmap_row(y, image.dimensions.size.height as int, margin),
            );
            pixel_bytes(image, x, y) == seq![
                byte_in_order(word, 0, order),
                byte_in_order(word, 1, order),
                byte_in_order(word, 2, order),
                byte_in_order(word, 3, order),
            ]
        }),
{
    let size = image.dimensions.size;
    let i = y * size.width + x;
    lemma_within(y, x, size.width as int, 1, size.width as int, size.height as int);
    lemma_fundamental_div_mod_converse(i, size.width as int, y, x);
    let words = rendered.framed(size, margin);
    law_words_can_be_read_back(words, order, i);
    assert(image.pixels@[4 * i] == byte_in_order(words[i], 0, order));
    assert(image.pixels@[4 * i + 1] == byte_in_order(words[i], 1, order));
    assert(image.pixels@[4 * i + 2] == byte_in_order(words[i], 2, order));
    assert(image.pixels@[4 * i + 3] == byte_in_order(words[i], 3, order));
}

/// The image of a glyph has the dimensions that are reported for the glyph, with the
/// same flag and the same advance.
pub proof fn law_image_has_reported_dimensions(
    image: GlyphImage,
    reported: GlyphDimensions,
    control_box: BBox,
    margin: int,
    hori_advance: F26Dot6,
)
    requires
        image.dimensions.measure(control_box, margin, hori_advance),
        reported.measure(control_box, margin, hori_advance),
    ensures
        image.dimensions == reported,
{
}

/// Extents that account for stem darkening enclose the raw extents of the outline, and
/// reach further on every side where darkening reaches at all.
pub proof fn law_darkened_extents_enclose_exact(
    exact: GlyphDimensions,
    darkened: GlyphDimensions,
    control_box: BBox,
    radius: int,
    hori_advance: F26Dot6,
)
    requires
        exact.measure(control_box, 0, hori_advance),
        darkened.measure(control_box, radius, hori_advance),
        extents_fit(control_box, radius),
        radius >= 0,
        control_box.x_min <= control_box.x_max,
        control_box.y_min <= control_box.y_max,
        pixel_in_range(control_box.x_min as int),
        pixel_in_range(control_box.x_max as int),
        pixel_in_range(control_box.y_min as int),
        pixel_in_range(control_box.y_max as int),
    ensures
        darkened.origin.x == exact.origin.x - radius,
        darkened.origin.y == exact.origin.y - radius,
        darkened.origin.x + darkened.size.width == exact.origin.x + exact.size.width + radius,
        darkened.origin.y + darkened.size.height == exact.origin.y + exact.size.height + radius,
        darkened.size.width == exact.size.width + 2 * radius,
        darkened.size.height == exact.size.height + 2 * radius,
{
    lemma_covers(control_box.x_min as int, control_box.x_max as int, 0);
    lemma_covers(control_box.x_min as int, control_box.x_max as int, radius);
    lemma_covers(control_box.y_min as int, control_box.y_max as int, 0);
    lemma_covers(control_box.y_min as int, control_box.y_max as int, radius);
}

/// The image with extents that account for stem darkening shows the image with the raw
/// extents in its middle.
pub proof fn law_darkened_image_holds_exact_image(
    exact: GlyphImage,
    darkened: GlyphImage,
    rendered: RenderedGlyph,
    control_box: BBox,
    radius: int,
    order: ByteOrder,
    x: int,
    y: int,
)
    requires
        exact.dimensions.measure(control_box, 0, rendered.hori_advance),
        darkened.dimensions.measure(control_box, radius, rendered.hori_advance),
        exact.shows(rendered, 0, order),
        darkened.shows(rendered, radius, order),
        extents_fit(control_box, radius),
        radius >= 0,
        control_box.x_min <= control_box.x_max,
        control_box.y_min <= control_box.y_max,
        pixel_in_range(control_box.x_min as int),
        pixel_in_range(control_box.x_max as int),
        pixel_in_range(control_box.y_min as int),
        pixel_in_range(control_box.y_max as int),
        0 <= x < exact.dimensions.size.width,
        0 <= y < exact.dimensions.size.height,
    ensures
        pixel_bytes(darkened, x + radius, y + radius) == pixel_bytes(exact, x, y),
{
    law_darkened_extents_enclose_exact(
        exact.dimensions,
        darkened.dimensions,
        control_box,
        radius,
        rendered.hori_advance,
    );
    lemma_pixel_bytes(exact, rendered, 0, order, x, y);
    lemma_pixel_bytes(darkened, rendered, radius, order, x + radius, y + radius);
}

/// The bytes of an inverted pixel are the inverted subpixels and an opaque alpha.
pub(crate) proof fn lemma_inverted_bytes(first: u8, second: u8, third: u8)
    ensures
        byte_of(inverted(first, second, third), 0) == 255 - third,
        byte_of(inverted(first, second, third), 1) == 255 - second,
        byte_of(inverted(first, second, third), 2) == 255 - first,
        byte_of(inverted(first, second, third), 3) == 255,
{
}

} // verus!
