//! What a call of each operation comes to, in plain numbers, bytes and keys.
//!
//! Each law speaks of every result that a call can return. Coordinates are in 1/64
//! of a pixel.
use std::hash::Hash;
use std::path::PathBuf;
use std::sync::Arc;

use vstd::arithmetic::div_mod::lemma_fundamental_div_mod_converse;
use vstd::prelude::*;

use crate::context::FontContext;
use crate::face::{
    pathname_is_valid, FaceReply, FileFaceRequest, FontDescriptor, MemoryFaceRequest,
};
use crate::fixed::{f26dot6_to_i32_rounding_up, floor, wrap_i32, wrap_u32, F26Dot6};
use crate::geometry::{BBox, Size};
use crate::glyph::{
    bounding_box_from_slot, can_frame, can_measure, extent, glyph_dimensions_from_slot,
    lower_pixel, margin, measure_outline, upper_pixel, FontInstance, GlyphDimensions, GlyphImage,
    GlyphKey, GlyphOutline, GlyphReply, GlyphRequest, GlyphSlot, Outline,
};
use crate::laws::{lemma_inverted_bytes, lemma_pixel_bytes, pixel_bytes};
use crate::raster::{
    buffer_len, can_plan, convert_vec_u32_to_vec_u8, frame, glyph_image, is_machine_order,
    lemma_within, plan, unpack, ByteOrder, RasterPlan, RenderedGlyph,
};

verus! {

/// Rounding down gives a pixel boundary that is not above the coordinate and less than
/// a pixel below it.
pub proof fn law_floor_call(x: F26Dot6, r: F26Dot6)
    requires
        call_ensures(floor, (x,), r),
    ensures
        call_requires(floor, (x,)),
        r % 64 == 0,
        r <= x < r + 64,
{
}

/// The conversion to whole pixels gives the pixel that is at most half a pixel away,
/// the lower one of two, up to multiples of 2^32.
pub proof fn law_pixel_conversion_call(x: F26Dot6, r: i32, pixel: int)
    requires
        call_ensures(f26dot6_to_i32_rounding_up, (x,), r),
        -32 < x - 64 * pixel <= 32,
    ensures
        (r - pixel) % 0x1_0000_0000 == 0,
        -0x8000_0000 <= pixel < 0x8000_0000 ==> r == pixel,
{
    assert((x + 31) / 64 == pixel);
    lemma_wrapped(pixel);
}

/// Every coordinate can be converted but for the last 32.
pub proof fn law_pixel_conversion_accepts(x: F26Dot6)
    requires
        x <= i64::MAX - 32,
    ensures
        call_requires(f26dot6_to_i32_rounding_up, (x,)),
{
}

/// A wrapped number is congruent to the number, and equal to it within range.
proof fn lemma_wrapped(v: int)
    ensures
        (wrap_i32(v) - v) % 0x1_0000_0000 == 0,
        -0x8000_0000 <= wrap_i32(v) < 0x8000_0000,
        -0x8000_0000 <= v < 0x8000_0000 ==> wrap_i32(v) == v,
        (wrap_u32(v) - v) % 0x1_0000_0000 == 0,
        0 <= v < 0x1_0000_0000 ==> wrap_u32(v) == v,
{
}

/// A descriptor holds the path and the index that it was made of.
pub proof fn law_descriptor_call(pathname: PathBuf, index: u32, r: FontDescriptor)
    requires
        call_ensures(FontDescriptor::new, (pathname, index), r),
    ensures
        r.pathname == pathname && r.index == index,
{
}

/// A path is valid exactly if it holds no zero byte.
pub proof fn law_pathname_call(pathname: &[u8], r: bool)
    requires
        call_ensures(pathname_is_valid, (pathname,), r),
    ensures
        r <==> !pathname@.contains(0),
{
    if pathname@.contains(0) {
        let i = choose|i: int| 0 <= i < pathname@.len() && pathname@[i] == 0;
        assert(pathname@[i] == 0);
    }
}

/// A context is created exactly if FreeType initialized without an error. It has no
/// fonts, and its images are laid out as the machine lays out words.
pub proof fn law_new_call<FK: Clone + Hash + Eq + Ord, H>(
    init_error: i32,
    r: Result<FontContext<FK, H>, ()>,
    font_key: FK,
)
    requires
        call_ensures(FontContext::<FK, H>::new, (init_error,), r),
    ensures
        r is Ok <==> init_error == 0,
        r matches Ok(context) ==> {
            &&& !context@.contains_key(font_key)
            &&& is_machine_order(context.byte_order())
        },
{
}

/// A font is reported as loaded exactly if it is.
pub proof fn law_is_loaded_call<FK: Clone + Hash + Eq + Ord, H>(
    context: &FontContext<FK, H>,
    font_key: &FK,
    r: bool,
)
    requires
        call_ensures(FontContext::<FK, H>::is_loaded, (context, font_key), r),
    ensures
        r <==> context@.contains_key(*font_key),
{
}

/// A face is asked for in memory exactly if the key is free, with all of the data and
/// the index as it is.
pub proof fn law_memory_face_request_call<'a, FK: Clone + Hash + Eq + Ord, H>(
    context: &FontContext<FK, H>,
    font_key: &FK,
    bytes: &'a Arc<Vec<u8>>,
    font_index: u32,
    r: Option<MemoryFaceRequest<'a>>,
)
    requires
        call_ensures(
            FontContext::<FK, H>::memory_face_request,
            (context, font_key, bytes, font_index),
            r,
        ),
    ensures
        r is Some <==> !context@.contains_key(*font_key),
        r matches Some(request) ==> {
            &&& *request.bytes == *bytes
            &&& request.size == bytes@.len()
            &&& request.face_index == font_index
        },
{
}

/// A face is asked for in a file exactly if the key is free: the path's bytes, a zero
/// byte, and the descriptor's index.
pub proof fn law_native_face_request_call<FK: Clone + Hash + Eq + Ord, H>(
    context: &FontContext<FK, H>,
    font_key: &FK,
    descriptor: &FontDescriptor,
    pathname: &[u8],
    r: Option<FileFaceRequest>,
)
    requires
        call_ensures(
            FontContext::<FK, H>::native_face_request,
            (context, font_key, descriptor, pathname),
            r,
        ),
    ensures
        r is Some <==> !context@.contains_key(*font_key),
        r matches Some(request) ==> {
            &&& request.pathname@.len() == pathname@.len() + 1
            &&& forall|i: int|
                0 <= i < pathname@.len() ==> #[trigger] request.pathname@[i] == pathname@[i]
            &&& request.pathname@[pathname@.len() as int] == 0
            &&& request.face_index == descriptor.index
        },
{
}

/// Adding a font from memory succeeds exactly if the key is taken or a face was opened.
/// A free key then holds that face and the data; a taken one keeps what it holds; and
/// after a failure the key is free. No other key changes, nor the byte order.
pub proof fn law_add_font_from_memory_call<FK: Clone + Hash + Eq + Ord, H>(
    context: &mut FontContext<FK, H>,
    font_key: &FK,
    bytes: Arc<Vec<u8>>,
    reply: Option<FaceReply<H>>,
    r: Result<(), ()>,
    other: FK,
)
    requires
        call_ensures(
            FontContext::<FK, H>::add_font_from_memory,
            (context, font_key, bytes, reply),
            r,
        ),
    ensures
        ({
            let before = old(context)@;
            let after = final(context)@;
            let taken = before.contains_key(*font_key);
            let opened = reply is Some && reply->0.error == 0 && reply->0.face is Some;
            &&& r is Ok <==> taken || opened
            &&& after.contains_key(*font_key) <==> taken || opened
            &&& taken ==> after[*font_key] == before[*font_key]
            &&& !taken && opened ==> {
                &&& after[*font_key].face == reply->0.face->0
                &&& after[*font_key].bytes == Some(bytes)
            }
            &&& other != *font_key ==> {
                &&& after.contains_key(other) <==> before.contains_key(other)
                &&& before.contains_key(other) ==> after[other] == before[other]
            }
            &&& final(context).byte_order() == old(context).byte_order()
        }),
{
}

/// Adding a font from a file does what adding one from memory does, and keeps no data.
pub proof fn law_add_native_font_call<FK: Clone + Hash + Eq + Ord, H>(
    context: &mut FontContext<FK, H>,
    font_key: &FK,
    reply: Option<FaceReply<H>>,
    r: Result<(), ()>,
    other: FK,
)
    requires
        call_ensures(FontContext::<FK, H>::add_native_font, (context, font_key, reply), r),
    ensures
        ({
            let before = old(context)@;
            let after = final(context)@;
            let taken = before.contains_key(*font_key);
            let opened = reply is Some && reply->0.error == 0 && reply->0.face is Some;
            &&& r is Ok <==> taken || opened
            &&& after.contains_key(*font_key) <==> taken || opened
            &&& taken ==> after[*font_key] == before[*font_key]
            &&& !taken && opened ==> {
                &&& after[*font_key].face == reply->0.face->0
                &&& after[*font_key].bytes is None
            }
            &&& other != *font_key ==> {
                &&& after.contains_key(other) <==> before.contains_key(other)
                &&& before.contains_key(other) ==> after[other] == before[other]
            }
            &&& final(context).byte_order() == old(context).byte_order()
        }),
{
}

/// Deleting a font frees its key, and changes no other key, nor the byte order.
pub proof fn law_delete_font_call<FK: Clone + Hash + Eq + Ord, H>(
    context: &mut FontContext<FK, H>,
    font_key: &FK,
    r: (),
    other: FK,
)
    requires
        call_ensures(FontContext::<FK, H>::delete_font, (context, font_key), r),
    ensures
        !final(context)@.contains_key(*font_key),
        other != *font_key ==> {
            &&& final(context)@.contains_key(other) <==> old(context)@.contains_key(other)
            &&& old(context)@.contains_key(other) ==> final(context)@[other] == old(context)@[other]
        },
        final(context).byte_order() == old(context).byte_order(),
{
}

/// The index of a character is asked for exactly if the font is loaded: of its face, with
/// the character's code.
pub proof fn law_get_char_index_call<FK: Clone + Hash + Eq + Ord, H>(
    context: &FontContext<FK, H>,
    font_key: &FK,
    ch: char,
    r: Option<(&H, u64)>,
)
    requires
        call_ensures(FontContext::<FK, H>::get_char_index, (context, font_key, ch), r),
    ensures
        r is Some <==> context@.contains_key(*font_key),
        r matches Some(question) ==> {
            &&& *question.0 == context@[*font_key].face
            &&& question.1 == ch as int
        },
{
}

/// A glyph is asked for exactly if its font is loaded: of its face, at the size of the
/// font instance and 72 dots to the inch, without hinting.
pub proof fn law_glyph_request_call<FK: Clone + Hash + Eq + Ord, H>(
    context: &FontContext<FK, H>,
    font_instance: &FontInstance<FK>,
    glyph_key: &GlyphKey,
    r: Option<GlyphRequest<'_, H>>,
)
    requires
        call_ensures(
            FontContext::<FK, H>::glyph_request,
            (context, font_instance, glyph_key),
            r,
        ),
    ensures
        r is Some <==> context@.contains_key(font_instance.font_key),
        r matches Some(request) ==> {
            &&& *request.face == context@[font_instance.font_key].face
            &&& request.char_width == font_instance.size
            &&& request.char_height == 0
            &&& request.horizontal_resolution == 72
            &&& request.vertical_resolution == 0
            &&& request.glyph_index == glyph_key.glyph_index
            &&& request.load_flags == 2
        },
{
}

/// A glyph loads exactly if its font is loaded, FreeType reported no error, and the slot
/// holds an outline: whatever its extents, its advance and the size. The slot is then
/// handed out as it is.
pub proof fn law_load_glyph_call<FK: Clone + Hash + Eq + Ord, H, O>(
    context: &FontContext<FK, H>,
    font_instance: &FontInstance<FK>,
    reply: &GlyphReply<O>,
    r: Option<&GlyphSlot<O>>,
)
    requires
        call_ensures(FontContext::<FK, H>::load_glyph::<O>, (context, font_instance, reply), r),
    ensures
        r is Some <==> {
            &&& context@.contains_key(font_instance.font_key)
            &&& reply.error == 0
            &&& reply.slot.format == 0x6f75_746c
        },
        r matches Some(slot) ==> *slot == reply.slot,
{
}

/// The outline of a glyph is handed out exactly if its font is loaded, FreeType reported
/// no error, and the slot holds an outline: whatever its extents, its advance and the
/// size. It is the outline in the slot.
pub proof fn law_glyph_outline_call<FK: Clone + Hash + Eq + Ord, H, O>(
    context: &FontContext<FK, H>,
    font_instance: &FontInstance<FK>,
    reply: &GlyphReply<O>,
    r: Result<GlyphOutline<'_, O>, ()>,
)
    requires
        call_ensures(FontContext::<FK, H>::glyph_outline::<O>, (context, font_instance, reply), r),
    ensures
        r is Ok <==> {
            &&& context@.contains_key(font_instance.font_key)
            &&& reply.error == 0
            &&& reply.slot.format == 0x6f75_746c
        },
        r matches Ok(outline) ==> *outline.outline == reply.slot.outline,
{
}

/// An outline refers to what it was made of.
pub proof fn law_outline_call<'a, O>(outline: &'a O, r: Outline<'a, O>)
    requires
        call_ensures(Outline::<'a, O>::new, (outline,), r),
    ensures
        *r.outline == *outline,
{
}

/// The bounding box lies on pixel boundaries, and each of its sides lies outside of the
/// control points, or on them, by less than a pixel.
pub proof fn law_bounding_box_call<O>(slot: &GlyphSlot<O>, r: BBox)
    requires
        call_ensures(bounding_box_from_slot::<O>, (slot,), r),
    ensures
        r.x_min % 64 == 0 && r.y_min % 64 == 0 && r.x_max % 64 == 0 && r.y_max % 64 == 0,
        r.x_min <= slot.control_box.x_min < r.x_min + 64,
        r.y_min <= slot.control_box.y_min < r.y_min + 64,
        r.x_max - 64 < slot.control_box.x_max <= r.x_max,
        r.y_max - 64 < slot.control_box.y_max <= r.y_max,
{
}

/// Along one axis: the pixels of the raw extent, and what a margin makes of them.
proof fn lemma_axis(min: int, max: int, margin: int, low: int, high: int)
    requires
        64 * low <= min < 64 * low + 64,
        64 * high - 64 < max <= 64 * high,
    ensures
        (lower_pixel(min, margin) - (low - margin)) % 0x1_0000_0000 == 0,
        -0x8000_0000 <= lower_pixel(min, margin) + margin < 0x8000_0000,
        -0x8000_0000 <= low < 0x8000_0000 ==> lower_pixel(min, margin) == low - margin,
        (upper_pixel(max, margin) - (high + margin)) % 0x1_0000_0000 == 0,
        -0x8000_0000 <= upper_pixel(max, margin) - margin < 0x8000_0000,
        (extent(min, max, margin) - (high - low + 2 * margin)) % 0x1_0000_0000 == 0,
        0 <= high - low + 2 * margin < 0x1_0000_0000 ==> extent(min, max, margin) == high - low + 2
            * margin,
{
    assert(min / 64 == low);
    assert((max + 63) / 64 == high);
    lemma_wrapped(low);
    lemma_wrapped(high);
    lemma_wrapped(upper_pixel(max, margin) - lower_pixel(min, margin));
    lemma_same_residue(
        upper_pixel(max, margin) - lower_pixel(min, margin),
        high - low + 2 * margin,
    );
}

/// Numbers that are congruent modulo 2^32 wrap to the same number.
proof fn lemma_same_residue(a: int, b: int)
    requires
        (a - b) % 0x1_0000_0000 == 0,
    ensures
        wrap_u32(a) == wrap_u32(b),
        (wrap_u32(a) - b) % 0x1_0000_0000 == 0,
{
}

/// Dimensions are reported exactly for a glyph that loads and has an advance. `left` and
/// `bottom` are the pixels in which the outline begins, `right` and `top` the pixel
/// boundaries at which it ends.
///
/// With the flag, the origin is the pixel in which the outline begins, and the size runs
/// to the boundary at which it ends. Without it, the origin is less by the reach of stem
/// darkening of the font instance, and the size greater by twice that reach, at any
/// size. All of this is up to multiples of 2^32, and exact within range. The advance is
/// the one in the slot.
pub proof fn law_glyph_dimensions_call<FK: Clone + Hash + Eq + Ord, H, O>(
    context: &FontContext<FK, H>,
    font_instance: &FontInstance<FK>,
    exact: bool,
    reply: &GlyphReply<O>,
    r: Result<GlyphDimensions, ()>,
    left: int,
    bottom: int,
    right: int,
    top: int,
)
    requires
        call_ensures(
            FontContext::<FK, H>::glyph_dimensions::<O>,
            (context, font_instance, exact, reply),
            r,
        ),
        64 * left <= reply.slot.control_box.x_min < 64 * left + 64,
        64 * bottom <= reply.slot.control_box.y_min < 64 * bottom + 64,
        64 * right - 64 < reply.slot.control_box.x_max <= 64 * right,
        64 * top - 64 < reply.slot.control_box.y_max <= 64 * top,
    ensures
        r is Ok <==> {
            &&& context@.contains_key(font_instance.font_key)
            &&& reply.error == 0
            &&& reply.slot.format == 0x6f75_746c
            &&& reply.slot.hori_advance != 0
        },
        r matches Ok(d) ==> {
            let reach = if exact {
                0
            } else {
                font_instance.stem_darkening_radius as int
            };
            &&& (d.origin.x - (left - reach)) % 0x1_0000_0000 == 0
            &&& (d.origin.y - (bottom - reach)) % 0x1_0000_0000 == 0
            &&& (d.size.width - (right - left + 2 * reach)) % 0x1_0000_0000 == 0
            &&& (d.size.height - (top - bottom + 2 * reach)) % 0x1_0000_0000 == 0
            &&& -0x8000_0000 <= left < 0x8000_0000 ==> d.origin.x == left - reach
            &&& -0x8000_0000 <= bottom < 0x8000_0000 ==> d.origin.y == bottom - reach
            &&& 0 <= right - left + 2 * reach < 0x1_0000_0000 ==> d.size.width == right - left + 2
                * reach
            &&& 0 <= top - bottom + 2 * reach < 0x1_0000_0000 ==> d.size.height == top - bottom
                + 2 * reach
            &&& d.advance == reply.slot.hori_advance
        },
{
    let b = reply.slot.control_box;
    let reach = margin(*font_instance, exact);
    lemma_axis(b.x_min as int, b.x_max as int, reach, left, right);
    lemma_axis(b.y_min as int, b.y_max as int, reach, bottom, top);
}

/// What [`law_glyph_dimensions_call`] says of the dimensions, of a slot whose outline is
/// measured whatever its advance.
pub proof fn law_measure_outline_call<FK, O>(
    font_instance: &FontInstance<FK>,
    slot: &GlyphSlot<O>,
    exact: bool,
    d: GlyphDimensions,
    left: int,
    bottom: int,
    right: int,
    top: int,
)
    requires
        call_ensures(measure_outline::<FK, O>, (font_instance, slot, exact), d),
        64 * left <= slot.control_box.x_min < 64 * left + 64,
        64 * bottom <= slot.control_box.y_min < 64 * bottom + 64,
        64 * right - 64 < slot.control_box.x_max <= 64 * right,
        64 * top - 64 < slot.control_box.y_max <= 64 * top,
    ensures
        ({
            let reach = if exact {
                0
            } else {
                font_instance.stem_darkening_radius as int
            };
            &&& (d.origin.x - (left - reach)) % 0x1_0000_0000 == 0
            &&& (d.origin.y - (bottom - reach)) % 0x1_0000_0000 == 0
            &&& (d.size.width - (right - left + 2 * reach)) % 0x1_0000_0000 == 0
            &&& (d.size.height - (top - bottom + 2 * reach)) % 0x1_0000_0000 == 0
            &&& -0x8000_0000 <= left < 0x8000_0000 ==> d.origin.x == left - reach
            &&& -0x8000_0000 <= bottom < 0x8000_0000 ==> d.origin.y == bottom - reach
            &&& 0 <= right - left + 2 * reach < 0x1_0000_0000 ==> d.size.width == right - left + 2
                * reach
            &&& 0 <= top - bottom + 2 * reach < 0x1_0000_0000 ==> d.size.height == top - bottom
                + 2 * reach
            &&& d.advance == slot.hori_advance
        }),
{
    let b = slot.control_box;
    let reach = margin(*font_instance, exact);
    lemma_axis(b.x_min as int, b.x_max as int, reach, left, right);
    lemma_axis(b.y_min as int, b.y_max as int, reach, bottom, top);
}

/// A slot has dimensions exactly if it has an advance, and they are those that the
/// outline is measured at.
pub proof fn law_dimensions_from_slot_call<FK, O>(
    font_instance: &FontInstance<FK>,
    slot: &GlyphSlot<O>,
    exact: bool,
    r: Result<GlyphDimensions, ()>,
    measured: GlyphDimensions,
)
    requires
        call_ensures(glyph_dimensions_from_slot::<FK, O>, (font_instance, slot, exact), r),
        call_ensures(measure_outline::<FK, O>, (font_instance, slot, exact), measured),
    ensures
        r is Ok <==> slot.hori_advance != 0,
        r matches Ok(dimensions) ==> dimensions == measured,
{
}

/// An outline can be measured exactly if its upper ends can be rounded up within 64 bits,
/// and its corners with the reach around them, the reach itself reversed, and the
/// differences of the corners are within 32 bits. `left`, `bottom`, `right` and `top`
/// are the pixels of the raw corners, wrapped to 32 bits.
pub proof fn law_can_measure_call<FK, O>(
    font_instance: &FontInstance<FK>,
    slot: &GlyphSlot<O>,
    exact: bool,
    r: bool,
    left: i32,
    bottom: i32,
    right: i32,
    top: i32,
    turns: (int, int, int, int),
)
    requires
        call_ensures(can_measure::<FK, O>, (font_instance, slot, exact), r),
        ({
            let b = slot.control_box;
            let first_column = left + 0x1_0000_0000 * turns.0;
            let first_row = bottom + 0x1_0000_0000 * turns.1;
            let end_column = right + 0x1_0000_0000 * turns.2;
            let end_row = top + 0x1_0000_0000 * turns.3;
            &&& 64 * first_column <= b.x_min < 64 * first_column + 64
            &&& 64 * first_row <= b.y_min < 64 * first_row + 64
            &&& 64 * end_column - 64 < b.x_max <= 64 * end_column
            &&& 64 * end_row - 64 < b.y_max <= 64 * end_row
        }),
    ensures
        ({
            let reach = if exact {
                0
            } else {
                font_instance.stem_darkening_radius as int
            };
            r <==> {
                &&& slot.control_box.x_max <= i64::MAX - 63
                &&& slot.control_box.y_max <= i64::MAX - 63
                &&& -reach <= i32::MAX
                &&& i32::MIN <= left - reach <= i32::MAX
                &&& i32::MIN <= bottom - reach <= i32::MAX
                &&& i32::MIN <= right + reach <= i32::MAX
                &&& i32::MIN <= top + reach <= i32::MAX
                &&& i32::MIN <= right - left + 2 * reach <= i32::MAX
                &&& i32::MIN <= top - bottom + 2 * reach <= i32::MAX
            }
        }),
{
    let b = slot.control_box;
    let reach = margin(*font_instance, exact);
    let first_column = left + 0x1_0000_0000 * turns.0;
    let first_row = bottom + 0x1_0000_0000 * turns.1;
    let end_column = right + 0x1_0000_0000 * turns.2;
    let end_row = top + 0x1_0000_0000 * turns.3;
    assert(b.x_min as int / 64 == first_column);
    assert(b.y_min as int / 64 == first_row);
    assert((b.x_max + 63) / 64 == end_column);
    assert((b.y_max + 63) / 64 == end_row);
    lemma_unwrapped(left as int, turns.0);
    lemma_unwrapped(bottom as int, turns.1);
    lemma_unwrapped(right as int, turns.2);
    lemma_unwrapped(top as int, turns.3);
}

/// Whole turns wrap away.
proof fn lemma_unwrapped(v: int, turns: int)
    requires
        -0x8000_0000 <= v < 0x8000_0000,
    ensures
        wrap_i32(v + 0x1_0000_0000 * turns) == v,
{
}

/// An image can be framed exactly if the outline can be measured and the number of pixels
/// is within 32 bits.
pub proof fn law_can_frame_call<FK, O>(
    font_instance: &FontInstance<FK>,
    slot: &GlyphSlot<O>,
    exact: bool,
    r: bool,
    measurable: bool,
    measured: GlyphDimensions,
)
    requires
        call_ensures(can_frame::<FK, O>, (font_instance, slot, exact), r),
        call_ensures(can_measure::<FK, O>, (font_instance, slot, exact), measurable),
        measurable ==> call_ensures(
            measure_outline::<FK, O>,
            (font_instance, slot, exact),
            measured,
        ),
    ensures
        r <==> measurable && measured.size.width * measured.size.height <= 0xffff_ffff,
{
}

/// The plan moves the outline so that it begins in pixel zero, and by whole pixels but for
/// the subpixel offset, which moves it to the right. The rendering is for an LCD, with the
/// default filter.
pub proof fn law_plan_call(control_box: &BBox, subpixel_offset: F26Dot6, r: RasterPlan)
    requires
        call_ensures(plan, (control_box, subpixel_offset), r),
    ensures
        0 <= control_box.x_min + r.x_offset < 64,
        (r.x_offset - subpixel_offset) % 64 == 0,
        0 <= control_box.y_min + r.y_offset < 64,
        r.y_offset as int % 64 == 0,
        r.lcd_filter == 1,
        r.render_mode == 3,
{
}

/// A plan can be made exactly if its sums are within 64 bits. `column` and `row` are the
/// pixels in which the outline begins, taking the subpixel offset into account.
pub proof fn law_can_plan_call(
    control_box: &BBox,
    subpixel_offset: F26Dot6,
    r: bool,
    column: int,
    row: int,
)
    requires
        call_ensures(can_plan, (control_box, subpixel_offset), r),
        64 * column <= control_box.x_min + subpixel_offset < 64 * column + 64,
        64 * row <= control_box.y_min < 64 * row + 64,
    ensures
        r <==> {
            &&& i64::MIN <= control_box.x_min + subpixel_offset <= i64::MAX
            &&& i64::MIN <= subpixel_offset - 64 * column <= i64::MAX
            &&& -64 * row <= i64::MAX
        },
{
}

/// There is a plan exactly for a glyph that loads, and it is the plan for its control
/// points and its subpixel offset.
pub proof fn law_raster_plan_call<FK: Clone + Hash + Eq + Ord, H, O>(
    context: &FontContext<FK, H>,
    font_instance: &FontInstance<FK>,
    glyph_key: &GlyphKey,
    reply: &GlyphReply<O>,
    r: Option<RasterPlan>,
)
    requires
        call_ensures(
            FontContext::<FK, H>::raster_plan::<O>,
            (context, font_instance, glyph_key, reply),
            r,
        ),
    ensures
        r is Some <==> {
            &&& context@.contains_key(font_instance.font_key)
            &&& reply.error == 0
            &&& reply.slot.format == 0x6f75_746c
        },
        r matches Some(work) ==> {
            &&& 0 <= reply.slot.control_box.x_min + work.x_offset < 64
            &&& (work.x_offset - glyph_key.subpixel_offset) % 64 == 0
            &&& 0 <= reply.slot.control_box.y_min + work.y_offset < 64
            &&& work.y_offset as int % 64 == 0
            &&& work.lcd_filter == 1
            &&& work.render_mode == 3
        },
{
}

/// A bitmap is readable exactly if it is not for an LCD, or has rows long enough for their
/// pixels, memory for exactly its rows, and a number of pixels within 32 bits.
pub proof fn law_is_readable_call(rendered: &RenderedGlyph<'_>, r: bool)
    requires
        call_ensures(RenderedGlyph::<'_>::is_readable, (rendered,), r),
    ensures
        r <==> (rendered.pixel_mode == 5 ==> {
            &&& rendered.rows == 0 || 3 * (rendered.width as int / 3) <= rendered.pitch
            &&& rendered.buffer@.len() == rendered.pitch * rendered.rows
            &&& (rendered.width as int / 3) * rendered.rows <= 0xffff_ffff
        }),
{
}

/// The length of a buffer is the number of rows times their distance, where that is a
/// length.
pub proof fn law_buffer_len_call(pitch: i32, rows: u32, r: Option<usize>)
    requires
        call_ensures(buffer_len, (pitch, rows), r),
    ensures
        r is Some <==> 0 <= pitch * rows <= usize::MAX,
        r matches Some(len) ==> len == pitch * rows,
{
}

/// Unpacking makes a word of each three bytes of a row: opaque, and the inverse of the
/// first byte above that of the second above that of the third. Word `y * columns + x`
/// is made of the bytes in column `x` of row `y`.
pub proof fn law_unpack_call(rendered: &RenderedGlyph<'_>, r: Vec<u32>, x: int, y: int)
    requires
        call_ensures(unpack, (rendered,), r),
        0 <= x < rendered.width as int / 3,
        0 <= y < rendered.rows,
    ensures
        ({
            let columns = rendered.width as int / 3;
            let start = y * rendered.pitch + 3 * x;
            &&& r@.len() == columns * rendered.rows
            &&& 0 <= y * columns + x < r@.len()
            &&& r@[y * columns + x] == 0xff00_0000 + (255 - rendered.buffer@[start]) * 0x1_0000 + (
            255 - rendered.buffer@[start + 1]) * 0x100 + (255 - rendered.buffer@[start + 2])
        }),
{
    let columns = rendered.width as int / 3;
    lemma_within(y, x, columns, 1, columns, rendered.rows as int);
    lemma_fundamental_div_mod_converse(y * columns + x, columns, y, x);
    assert(rendered.image()[y * columns + x] == rendered.pixel(x, y));
}

/// A framed image has a word for each pixel of its size. The pixel in column `x` of row `y`
/// shows column `x - margin - left` of row `y + top + margin - height` of the bitmap, and
/// white where the bitmap has no such pixel.
pub proof fn law_frame_call(
    rendered: &RenderedGlyph<'_>,
    size: Size,
    margin: i32,
    r: Vec<u32>,
    x: int,
    y: int,
)
    requires
        call_ensures(frame, (rendered, size, margin), r),
        0 <= x < size.width,
        0 <= y < size.height,
    ensures
        ({
            let column = x - margin - rendered.left;
            let row = y + rendered.top + margin - size.height;
            let start = row * rendered.pitch + 3 * column;
            let inside = 0 <= column < rendered.width as int / 3 && 0 <= row < rendered.rows;
            &&& r@.len() == size.width * size.height
            &&& 0 <= y * size.width + x < r@.len()
            &&& r@[y * size.width + x] == if inside {
                0xff00_0000 + (255 - rendered.buffer@[start]) * 0x1_0000 + (255
                    - rendered.buffer@[start + 1]) * 0x100 + (255 - rendered.buffer@[start + 2])
            } else {
                0xffff_ffff
            }
        }),
{
    let width = size.width as int;
    lemma_within(y, x, width, 1, width, size.height as int);
    lemma_fundamental_div_mod_converse(y * width + x, width, y, x);
    assert(rendered.framed(size, margin as int)[y * width + x] == rendered.pixel(
        x - margin - rendered.left,
        y + rendered.top + margin - size.height,
    ));
}

/// A word lies in four bytes, which make it up: lowest first or highest first, as the order
/// says.
pub proof fn law_conversion_to_bytes_call(
    input: Vec<u32>,
    order: ByteOrder,
    r: Vec<u8>,
    i: int,
)
    requires
        call_ensures(convert_vec_u32_to_vec_u8, (input, order), r),
        0 <= i < input@.len(),
    ensures
        r@.len() == 4 * input@.len(),
        input@[i] == match order {
            ByteOrder::LittleEndian => r@[4 * i] + r@[4 * i + 1] * 0x100 + r@[4 * i + 2] * 0x1_0000
                + r@[4 * i + 3] * 0x100_0000,
            ByteOrder::BigEndian => r@[4 * i] * 0x100_0000 + r@[4 * i + 1] * 0x1_0000 + r@[4 * i
                + 2] * 0x100 + r@[4 * i + 3],
        },
{
    crate::laws::law_words_can_be_read_back(input@, order, i);
}

/// There is a word for each pixel of a bitmap and of a frame, and there are four bytes for
/// each word and for each pixel of an image, also where there are none.
pub proof fn law_lengths<FK: Clone + Hash + Eq + Ord, H, O>(
    context: &FontContext<FK, H>,
    font_instance: &FontInstance<FK>,
    reply: &GlyphReply<O>,
    rendered: &RenderedGlyph<'_>,
    exact: bool,
    image: GlyphImage,
    unpacked: Vec<u32>,
    size: Size,
    margin: i32,
    framed: Vec<u32>,
    order: ByteOrder,
    bytes: Vec<u8>,
)
    requires
        call_ensures(
            FontContext::<FK, H>::rasterize_glyph_with_native_rasterizer::<O>,
            (context, font_instance, reply, Some(rendered), exact),
            Ok(image),
        ),
        call_ensures(unpack, (rendered,), unpacked),
        call_ensures(frame, (rendered, size, margin), framed),
        call_ensures(convert_vec_u32_to_vec_u8, (framed, order), bytes),
    ensures
        image.pixels@.len() == 4 * (image.dimensions.size.width * image.dimensions.size.height),
        unpacked@.len() == (rendered.width as int / 3) * rendered.rows,
        framed@.len() == size.width * size.height,
        bytes@.len() == 4 * framed@.len(),
{
}

/// The bytes of a pixel of an image, and how they follow from the place of the bitmap.
proof fn lemma_shown(
    image: GlyphImage,
    rendered: RenderedGlyph<'_>,
    reach: int,
    order: ByteOrder,
    x: int,
    y: int,
)
    requires
        image.shows(rendered, reach, order),
        0 <= x < image.dimensions.size.width,
        0 <= y < image.dimensions.size.height,
    ensures
        ({
            let width = image.dimensions.size.width as int;
            let height = image.dimensions.size.height as int;
            let column = x - reach - rendered.left;
            let row = y + rendered.top + reach - height;
            let start = row * rendered.pitch + 3 * column;
            let inside = 0 <= column < rendered.width as int / 3 && 0 <= row < rendered.rows;
            let first = if inside { 255 - rendered.buffer@[start] } else { 255 };
            let second = if inside { 255 - rendered.buffer@[start + 1] } else { 255 };
            let third = if inside { 255 - rendered.buffer@[start + 2] } else { 255 };
            let at = 4 * (y * width + x);
            &&& image.pixels@.len() == 4 * (width * height)
            &&& 0 <= at && at + 4 <= image.pixels@.len()
            &&& order is LittleEndian ==> {
                &&& image.pixels@[at] == third
                &&& image.pixels@[at + 1] == second
                &&& image.pixels@[at + 2] == first
                &&& image.pixels@[at + 3] == 255
            }
            &&& order is BigEndian ==> {
                &&& image.pixels@[at] == 255
                &&& image.pixels@[at + 1] == first
                &&& image.pixels@[at + 2] == second
                &&& image.pixels@[at + 3] == third
            }
        }),
{
    let width = image.dimensions.size.width as int;
    let height = image.dimensions.size.height as int;
    let column = x - reach - rendered.left;
    let row = y + rendered.top + reach - height;
    let start = row * rendered.pitch + 3 * column;
    let at = 4 * (y * width + x);
    lemma_within(y, x, width, 1, width, height);
    lemma_pixel_bytes(image, rendered, reach, order, x, y);
    let bytes = pixel_bytes(image, x, y);
    assert(bytes[0] == image.pixels@[at]);
    assert(bytes[1] == image.pixels@[at + 1]);
    assert(bytes[2] == image.pixels@[at + 2]);
    assert(bytes[3] == image.pixels@[at + 3]);
    if 0 <= column < rendered.width as int / 3 && 0 <= row < rendered.rows {
        lemma_inverted_bytes(
            rendered.buffer@[start],
            rendered.buffer@[start + 1],
            rendered.buffer@[start + 2],
        );
    } else {
        lemma_inverted_bytes(0, 0, 0);
    }
}

/// A glyph is rasterized exactly if it loads and its bitmap is for an LCD: whatever its
/// extents, its advance and the flag. Its image has the extents that
/// [`law_glyph_dimensions_call`] gives for the same flag, and the advance of the rendered
/// glyph.
pub proof fn law_rasterize_call<FK: Clone + Hash + Eq + Ord, H, O>(
    context: &FontContext<FK, H>,
    font_instance: &FontInstance<FK>,
    reply: &GlyphReply<O>,
    rendered: Option<&RenderedGlyph<'_>>,
    exact: bool,
    r: Result<GlyphImage, ()>,
    left: int,
    bottom: int,
    right: int,
    top: int,
)
    requires
        call_ensures(
            FontContext::<FK, H>::rasterize_glyph_with_native_rasterizer::<O>,
            (context, font_instance, reply, rendered, exact),
            r,
        ),
        64 * left <= reply.slot.control_box.x_min < 64 * left + 64,
        64 * bottom <= reply.slot.control_box.y_min < 64 * bottom + 64,
        64 * right - 64 < reply.slot.control_box.x_max <= 64 * right,
        64 * top - 64 < reply.slot.control_box.y_max <= 64 * top,
    ensures
        r is Ok <==> {
            &&& context@.contains_key(font_instance.font_key)
            &&& reply.error == 0
            &&& reply.slot.format == 0x6f75_746c
            &&& rendered is Some
            &&& rendered->0.pixel_mode == 5
        },
        r matches Ok(image) ==> {
            let d = image.dimensions;
            let reach = if exact {
                0
            } else {
                font_instance.stem_darkening_radius as int
            };
            &&& (d.origin.x - (left - reach)) % 0x1_0000_0000 == 0
            &&& (d.origin.y - (bottom - reach)) % 0x1_0000_0000 == 0
            &&& (d.size.width - (right - left + 2 * reach)) % 0x1_0000_0000 == 0
            &&& (d.size.height - (top - bottom + 2 * reach)) % 0x1_0000_0000 == 0
            &&& -0x8000_0000 <= left < 0x8000_0000 ==> d.origin.x == left - reach
            &&& -0x8000_0000 <= bottom < 0x8000_0000 ==> d.origin.y == bottom - reach
            &&& 0 <= right - left + 2 * reach < 0x1_0000_0000 ==> d.size.width == right - left + 2
                * reach
            &&& 0 <= top - bottom + 2 * reach < 0x1_0000_0000 ==> d.size.height == top - bottom
                + 2 * reach
            &&& d.advance == rendered->0.hori_advance
            &&& is_machine_order(context.byte_order())
        },
{
    let b = reply.slot.control_box;
    let reach = margin(*font_instance, exact);
    lemma_axis(b.x_min as int, b.x_max as int, reach, left, right);
    lemma_axis(b.y_min as int, b.y_max as int, reach, bottom, top);
}

/// The pixel in column `x` of row `y` of a rasterized image, counted from the upper left,
/// shows the bitmap's column `x - reach - left` of row `y + top + reach - height`, where
/// the reach is zero with the flag and that of stem darkening without it. It is opaque, and
/// shows the inverse of the three subpixels there, or white where the bitmap has none. The
/// four bytes lie in the one order of the context.
pub proof fn law_rasterized_pixel_call<FK: Clone + Hash + Eq + Ord, H, O>(
    context: &FontContext<FK, H>,
    font_instance: &FontInstance<FK>,
    reply: &GlyphReply<O>,
    rendered: &RenderedGlyph<'_>,
    exact: bool,
    image: GlyphImage,
    x: int,
    y: int,
)
    requires
        call_ensures(
            FontContext::<FK, H>::rasterize_glyph_with_native_rasterizer::<O>,
            (context, font_instance, reply, Some(rendered), exact),
            Ok(image),
        ),
        0 <= x < image.dimensions.size.width,
        0 <= y < image.dimensions.size.height,
    ensures
        ({
            let reach = if exact {
                0
            } else {
                font_instance.stem_darkening_radius as int
            };
            let width = image.dimensions.size.width as int;
            let height = image.dimensions.size.height as int;
            let column = x - reach - rendered.left;
            let row = y + rendered.top + reach - height;
            let start = row * rendered.pitch + 3 * column;
            let inside = 0 <= column < rendered.width as int / 3 && 0 <= row < rendered.rows;
            let first = if inside { 255 - rendered.buffer@[start] } else { 255 };
            let second = if inside { 255 - rendered.buffer@[start + 1] } else { 255 };
            let third = if inside { 255 - rendered.buffer@[start + 2] } else { 255 };
            let at = 4 * (y * width + x);
            &&& image.pixels@.len() == 4 * (width * height)
            &&& 0 <= at && at + 4 <= image.pixels@.len()
            &&& context.byte_order() is LittleEndian ==> {
                &&& image.pixels@[at] == third
                &&& image.pixels@[at + 1] == second
                &&& image.pixels@[at + 2] == first
                &&& image.pixels@[at + 3] == 255
            }
            &&& context.byte_order() is BigEndian ==> {
                &&& image.pixels@[at] == 255
                &&& image.pixels@[at + 1] == first
                &&& image.pixels@[at + 2] == second
                &&& image.pixels@[at + 3] == third
            }
        }),
{
    lemma_shown(
        image,
        *rendered,
        margin(*font_instance, exact),
        context.byte_order(),
        x,
        y,
    );
}

/// Where the upper left corner of the bitmap is that of the image, row `y` of the image
/// shows row `y` of the bitmap: the right way up.
pub proof fn law_image_is_upright<FK: Clone + Hash + Eq + Ord, H, O>(
    context: &FontContext<FK, H>,
    font_instance: &FontInstance<FK>,
    reply: &GlyphReply<O>,
    rendered: &RenderedGlyph<'_>,
    image: GlyphImage,
    x: int,
    y: int,
)
    requires
        call_ensures(
            FontContext::<FK, H>::rasterize_glyph_with_native_rasterizer::<O>,
            (context, font_instance, reply, Some(rendered), true),
            Ok(image),
        ),
        rendered.left == 0,
        rendered.top == image.dimensions.size.height,
        0 <= x < rendered.width as int / 3,
        0 <= y < rendered.rows,
        x < image.dimensions.size.width,
        y < image.dimensions.size.height,
    ensures
        ({
            let at = 4 * (y * image.dimensions.size.width + x);
            let start = y * rendered.pitch + 3 * x;
            let (first, third) = if context.byte_order() is LittleEndian {
                (at + 2, at)
            } else {
                (at + 1, at + 3)
            };
            let second = if context.byte_order() is LittleEndian { at + 1 } else { at + 2 };
            &&& image.pixels@[first] == 255 - rendered.buffer@[start]
            &&& image.pixels@[second] == 255 - rendered.buffer@[start + 1]
            &&& image.pixels@[third] == 255 - rendered.buffer@[start + 2]
        }),
{
    law_rasterized_pixel_call(context, font_instance, reply, rendered, true, image, x, y);
}

/// All images of one context lay their pixels out in one order, whatever the glyphs and
/// the flags: the bytes of each are the words of its frame in the order of the context.
pub proof fn law_images_share_byte_order<FK: Clone + Hash + Eq + Ord, H, O>(
    context: &FontContext<FK, H>,
    one_call: (&FontInstance<FK>, &GlyphReply<O>, &RenderedGlyph<'_>, bool, GlyphImage),
    other_call: (&FontInstance<FK>, &GlyphReply<O>, &RenderedGlyph<'_>, bool, GlyphImage),
    words: (Vec<u32>, Vec<u32>),
    bytes: (Vec<u8>, Vec<u8>),
    reaches: (i32, i32),
)
    requires
        call_ensures(
            FontContext::<FK, H>::rasterize_glyph_with_native_rasterizer::<O>,
            (context, one_call.0, one_call.1, Some(one_call.2), one_call.3),
            Ok(one_call.4),
        ),
        call_ensures(
            FontContext::<FK, H>::rasterize_glyph_with_native_rasterizer::<O>,
            (context, other_call.0, other_call.1, Some(other_call.2), other_call.3),
            Ok(other_call.4),
        ),
        reaches.0 == if one_call.3 { 0 } else { one_call.0.stem_darkening_radius },
        reaches.1 == if other_call.3 { 0 } else { other_call.0.stem_darkening_radius },
        call_ensures(frame, (one_call.2, one_call.4.dimensions.size, reaches.0), words.0),
        call_ensures(frame, (other_call.2, other_call.4.dimensions.size, reaches.1), words.1),
        call_ensures(convert_vec_u32_to_vec_u8, (words.0, context.byte_order()), bytes.0),
        call_ensures(convert_vec_u32_to_vec_u8, (words.1, context.byte_order()), bytes.1),
    ensures
        one_call.4.pixels@ == bytes.0@,
        other_call.4.pixels@ == bytes.1@,
{
}

/// An image is made exactly of an LCD bitmap, with the dimensions that the outline is
/// measured at with the same flag, but for the advance, which is the rendered glyph's.
pub proof fn law_glyph_image_call<FK, O>(
    font_instance: &FontInstance<FK>,
    slot: &GlyphSlot<O>,
    rendered: &RenderedGlyph<'_>,
    exact: bool,
    order: ByteOrder,
    r: Result<GlyphImage, ()>,
    measured: GlyphDimensions,
)
    requires
        call_ensures(
            glyph_image::<FK, O>,
            (font_instance, slot, rendered, exact, order),
            r,
        ),
        call_ensures(measure_outline::<FK, O>, (font_instance, slot, exact), measured),
    ensures
        r is Ok <==> rendered.pixel_mode == 5,
        r matches Ok(image) ==> {
            &&& image.dimensions.origin == measured.origin
            &&& image.dimensions.size == measured.size
            &&& image.dimensions.advance == rendered.hori_advance
        },
{
}

/// The pixels of an image are those of the frame with the reach that the flag gives, laid
/// out in the given order.
pub proof fn law_glyph_image_pixels_call<FK, O>(
    font_instance: &FontInstance<FK>,
    slot: &GlyphSlot<O>,
    rendered: &RenderedGlyph<'_>,
    exact: bool,
    order: ByteOrder,
    image: GlyphImage,
    reach: i32,
    words: Vec<u32>,
    bytes: Vec<u8>,
)
    requires
        call_ensures(
            glyph_image::<FK, O>,
            (font_instance, slot, rendered, exact, order),
            Ok(image),
        ),
        reach == if exact { 0 } else { font_instance.stem_darkening_radius },
        call_ensures(frame, (rendered, image.dimensions.size, reach), words),
        call_ensures(convert_vec_u32_to_vec_u8, (words, order), bytes),
    ensures
        image.pixels@ == bytes@,
{
}

/// Any error code, path and index, and any path's bytes are accepted, and any buffer, any
/// plan and any outline can be tested.
pub proof fn law_tests_accept_everything<FK: Clone + Hash + Eq + Ord, H, O>(
    init_error: i32,
    pathname: PathBuf,
    index: u32,
    path_bytes: &[u8],
    font_instance: &FontInstance<FK>,
    slot: &GlyphSlot<O>,
    exact: bool,
    rendered: &RenderedGlyph<'_>,
    words: Vec<u32>,
    order: ByteOrder,
)
    ensures
        call_requires(FontContext::<FK, H>::new, (init_error,)),
        call_requires(FontDescriptor::new, (pathname, index)),
        call_requires(pathname_is_valid, (path_bytes,)),
        call_requires(Outline::<'_, O>::new, (&slot.outline,)),
        call_requires(can_measure::<FK, O>, (font_instance, slot, exact)),
        call_requires(can_frame::<FK, O>, (font_instance, slot, exact)),
        call_requires(can_plan, (&slot.control_box, font_instance.size)),
        call_requires(buffer_len, (rendered.pitch, rendered.rows)),
        call_requires(RenderedGlyph::<'_>::is_readable, (rendered,)),
        call_requires(convert_vec_u32_to_vec_u8, (words, order)),
{
}

/// A context with keys that tell fonts apart answers every question about fonts and
/// glyphs.
pub proof fn law_context_accepts<'a, FK: Clone + Hash + Eq + Ord, H, O>(
    context: &FontContext<FK, H>,
    font_key: &FK,
    bytes: &'a Arc<Vec<u8>>,
    font_index: u32,
    ch: char,
    font_instance: &FontInstance<FK>,
    glyph_key: &GlyphKey,
    reply: &GlyphReply<O>,
)
    requires
        vstd::laws_cmp::obeys_cmp::<FK>(),
    ensures
        call_requires(FontContext::<FK, H>::is_loaded, (context, font_key)),
        call_requires(
            FontContext::<FK, H>::memory_face_request,
            (context, font_key, bytes, font_index),
        ),
        call_requires(FontContext::<FK, H>::get_char_index, (context, font_key, ch)),
        call_requires(FontContext::<FK, H>::glyph_request, (context, font_instance, glyph_key)),
        call_requires(FontContext::<FK, H>::load_glyph::<O>, (context, font_instance, reply)),
        call_requires(FontContext::<FK, H>::glyph_outline::<O>, (context, font_instance, reply)),
{
}

/// A context with keys that tell fonts apart can delete any font, and, if clones of keys
/// are equal to the keys, add any font.
pub proof fn law_context_changes<FK: Clone + Hash + Eq + Ord, H>(
    context: &mut FontContext<FK, H>,
    font_key: &FK,
    bytes: Arc<Vec<u8>>,
    reply: Option<FaceReply<H>>,
)
    requires
        vstd::laws_cmp::obeys_cmp::<FK>(),
    ensures
        call_requires(FontContext::<FK, H>::delete_font, (context, font_key)),
        (forall|a: FK, b: FK| #[trigger] cloned(a, b) ==> a == b) ==> {
            &&& call_requires(
                FontContext::<FK, H>::add_font_from_memory,
                (context, font_key, bytes, reply),
            )
            &&& call_requires(FontContext::<FK, H>::add_native_font, (context, font_key, reply))
        },
{
}

/// A face in a file can be asked for under a taken key, and at a valid path.
pub proof fn law_native_face_request_accepts<FK: Clone + Hash + Eq + Ord, H>(
    context: &FontContext<FK, H>,
    font_key: &FK,
    descriptor: &FontDescriptor,
    pathname: &[u8],
)
    requires
        vstd::laws_cmp::obeys_cmp::<FK>(),
        context@.contains_key(*font_key) || !pathname@.contains(0),
    ensures
        call_requires(
            FontContext::<FK, H>::native_face_request,
            (context, font_key, descriptor, pathname),
        ),
{
    if !pathname@.contains(0) {
        assert forall|i: int| 0 <= i < pathname@.len() implies pathname@[i] != 0 by {
            assert(pathname@.contains(pathname@[i]));
        }
    }
}

/// What can be measured has a bounding box and dimensions.
pub proof fn law_measurable_outline_has_dimensions<FK: Clone + Hash + Eq + Ord, H, O>(
    context: &FontContext<FK, H>,
    font_instance: &FontInstance<FK>,
    reply: &GlyphReply<O>,
    exact: bool,
)
    requires
        call_ensures(can_measure::<FK, O>, (font_instance, &reply.slot, exact), true),
        vstd::laws_cmp::obeys_cmp::<FK>(),
    ensures
        call_requires(bounding_box_from_slot::<O>, (&reply.slot,)),
        call_requires(measure_outline::<FK, O>, (font_instance, &reply.slot, exact)),
        call_requires(glyph_dimensions_from_slot::<FK, O>, (font_instance, &reply.slot, exact)),
        call_requires(
            FontContext::<FK, H>::glyph_dimensions::<O>,
            (context, font_instance, exact, reply),
        ),
{
}

/// The dimensions of a glyph that does not load, or has no advance, can be asked for
/// whatever its extents.
pub proof fn law_missing_glyph_can_be_measured<FK: Clone + Hash + Eq + Ord, H, O>(
    context: &FontContext<FK, H>,
    font_instance: &FontInstance<FK>,
    reply: &GlyphReply<O>,
    exact: bool,
)
    requires
        vstd::laws_cmp::obeys_cmp::<FK>(),
        !context@.contains_key(font_instance.font_key) || reply.error != 0 || reply.slot.format
            != 0x6f75_746c || reply.slot.hori_advance == 0,
    ensures
        call_requires(
            FontContext::<FK, H>::glyph_dimensions::<O>,
            (context, font_instance, exact, reply),
        ),
{
}

/// What can be planned has a plan, and so can a glyph that does not load be asked for.
pub proof fn law_plan_accepts<FK: Clone + Hash + Eq + Ord, H, O>(
    context: &FontContext<FK, H>,
    font_instance: &FontInstance<FK>,
    glyph_key: &GlyphKey,
    reply: &GlyphReply<O>,
    possible: bool,
)
    requires
        vstd::laws_cmp::obeys_cmp::<FK>(),
        call_ensures(can_plan, (&reply.slot.control_box, glyph_key.subpixel_offset), possible),
    ensures
        possible ==> call_requires(plan, (&reply.slot.control_box, glyph_key.subpixel_offset)),
        (possible || !context@.contains_key(font_instance.font_key) || reply.error != 0
            || reply.slot.format != 0x6f75_746c) ==> call_requires(
            FontContext::<FK, H>::raster_plan::<O>,
            (context, font_instance, glyph_key, reply),
        ),
{
}

/// A bitmap can be unpacked and framed if its rows are long enough for their pixels, its
/// memory is that of its rows, and the pixels can be counted in 32 bits.
pub proof fn law_bitmap_accepts(rendered: &RenderedGlyph<'_>, size: Size, margin: i32)
    requires
        rendered.rows == 0 || 3 * (rendered.width as int / 3) <= rendered.pitch,
        rendered.buffer@.len() == rendered.pitch * rendered.rows,
        (rendered.width as int / 3) * rendered.rows <= 0xffff_ffff,
    ensures
        call_requires(unpack, (rendered,)),
        size.width * size.height <= 0xffff_ffff ==> call_requires(
            frame,
            (rendered, size, margin),
        ),
{
}

/// A glyph can be rasterized if its bitmap is readable and its image can be framed. A
/// glyph that makes no image can be asked for whatever its bitmap and its extents.
pub proof fn law_rasterize_accepts<FK: Clone + Hash + Eq + Ord, H, O>(
    context: &FontContext<FK, H>,
    font_instance: &FontInstance<FK>,
    reply: &GlyphReply<O>,
    rendered: &RenderedGlyph<'_>,
    nothing: Option<&RenderedGlyph<'_>>,
    exact: bool,
    order: ByteOrder,
    readable: bool,
    framable: bool,
)
    requires
        nothing is None,
        vstd::laws_cmp::obeys_cmp::<FK>(),
        call_ensures(RenderedGlyph::<'_>::is_readable, (rendered,), readable),
        call_ensures(can_frame::<FK, O>, (font_instance, &reply.slot, exact), framable),
    ensures
        call_requires(
            FontContext::<FK, H>::rasterize_glyph_with_native_rasterizer::<O>,
            (context, font_instance, reply, nothing, exact),
        ),
        ((readable && framable) || rendered.pixel_mode != 5) ==> call_requires(
            glyph_image::<FK, O>,
            (font_instance, &reply.slot, rendered, exact, order),
        ),
        ((readable && framable) || rendered.pixel_mode != 5 || !context@.contains_key(
            font_instance.font_key,
        ) || reply.error != 0 || reply.slot.format != 0x6f75_746c) ==> call_requires(
            FontContext::<FK, H>::rasterize_glyph_with_native_rasterizer::<O>,
            (context, font_instance, reply, Some(rendered), exact),
        ),
{
}

} // verus!
