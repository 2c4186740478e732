//! The font context: which fonts are loaded, and what is asked of FreeType and
//! answered to the caller.
use std::collections::BTreeMap;
use std::hash::Hash;
use std::sync::Arc;

use vstd::prelude::*;

use crate::face::{
    names_file, terminated, Face, FaceReply, FileFaceRequest, FontDescriptor, MemoryFaceRequest,
};
use crate::freetype::{
    glyph_format_outline, load_no_hinting, GLYPH_FORMAT_OUTLINE, LCD_FILTER_DEFAULT,
    LOAD_NO_HINTING, PIXEL_MODE_LCD, RENDER_MODE_LCD,
};
use crate::glyph::{
    extents_fit, glyph_dimensions_from_slot, image_fits, margin, FontInstance, GlyphDimensions, GlyphImage,
    GlyphKey, GlyphOutline, GlyphReply, GlyphRequest, GlyphSlot,
};
use crate::raster::{
    glyph_image, is_machine_order, origin_offset, plan, plan_fits, ByteOrder, MachineOrder,
    RasterPlan, RenderedGlyph,
};

verus! {

/// The resolution at which a point is a pixel.
pub const DPI: u32 = 72;

/// Keys of this type can tell fonts apart: they are totally ordered, and only equal
/// keys compare as equal.
pub open spec fn ordered_key<FK: Ord>() -> bool {
    vstd::laws_cmp::obeys_cmp::<FK>()
}

/// Keys of this type can be kept: they tell fonts apart, and a clone is equal to its
/// key. The integers are such keys.
pub open spec fn lawful_key<FK: Clone + Ord>() -> bool {
    &&& ordered_key::<FK>()
    &&& forall|a: FK, b: FK| #[trigger] cloned(a, b) ==> a == b
}

/// An object that keeps the fonts that FreeType has loaded. `H` is the caller's
/// handle on a face.
pub struct FontContext<FK, H> where FK: Clone + Hash + Eq + Ord {
    faces: BTreeMap<FK, Face<H>>,
    order: MachineOrder,
}

impl<FK, H> View for FontContext<FK, H> where FK: Clone + Hash + Eq + Ord {
    type V = Map<FK, Face<H>>;

    /// The loaded faces by font key.
    closed spec fn view(&self) -> Map<FK, Face<H>> {
        self.faces@
    }
}

/// After an attempt to add a font under `font_key`, it is loaded: it was before,
/// or FreeType opened its face.
pub open spec fn add_succeeds<FK, H>(
    faces: Map<FK, Face<H>>,
    font_key: FK,
    reply: Option<FaceReply<H>>,
) -> bool {
    faces.contains_key(font_key) || (reply matches Some(answer) && answer.opened())
}

/// The loaded faces after an attempt to add a font under `font_key`: the face that
/// FreeType opened joins them, unless the key is taken.
pub open spec fn faces_after_add<FK, H>(
    faces: Map<FK, Face<H>>,
    font_key: FK,
    bytes: Option<Arc<Vec<u8>>>,
    reply: Option<FaceReply<H>>,
) -> Map<FK, Face<H>> {
    if !faces.contains_key(font_key) && add_succeeds(faces, font_key, reply) {
        faces.insert(font_key, Face { face: reply->0.face->0, bytes: bytes })
    } else {
        faces
    }
}

/// The glyph asked for lies in its slot as an outline: its font is loaded, and
/// FreeType loaded the glyph, in outline format.
pub open spec fn glyph_loads<FK, H, O>(
    faces: Map<FK, Face<H>>,
    font_instance: FontInstance<FK>,
    reply: GlyphReply<O>,
) -> bool {
    &&& faces.contains_key(font_instance.font_key)
    &&& reply.error == 0
    &&& reply.slot.format == GLYPH_FORMAT_OUTLINE
}

/// The glyph asked for can be rasterized: it lies in its slot as an outline, and the
/// rasterizer left an LCD bitmap of it.
pub open spec fn glyph_rasterizes<FK, H, O>(
    faces: Map<FK, Face<H>>,
    font_instance: FontInstance<FK>,
    reply: GlyphReply<O>,
    rendered: Option<&RenderedGlyph<'_>>,
) -> bool {
    &&& glyph_loads(faces, font_instance, reply)
    &&& rendered matches Some(bitmap) && bitmap.pixel_mode == PIXEL_MODE_LCD
}

impl<FK, H> FontContext<FK, H> where FK: Clone + Hash + Eq + Ord {
    /// The order in which the bytes of a pixel lie in the images of this context.
    pub closed spec fn byte_order(&self) -> ByteOrder {
        self.order.spec_order()
    }

    /// Creates a new font context instance, without fonts. `init_error` is what
    /// initializing FreeType returned, zero for success.
    pub fn new(init_error: i32) -> (r: Result<FontContext<FK, H>, ()>)
        ensures
            r is Ok <==> init_error == 0,
            r matches Ok(context) ==> {
                &&& context@ == Map::<FK, Face<H>>::empty()
                &&& is_machine_order(context.byte_order())
            },
    {
        if init_error != 0 {
            return Err(());
        }
        Ok(FontContext { faces: BTreeMap::new(), order: MachineOrder::detect() })
    }

    /// Tells whether a font with the given font key is loaded.
    pub fn is_loaded(&self, font_key: &FK) -> (r: bool)
        requires
            ordered_key::<FK>(),
        ensures
            r == self@.contains_key(*font_key),
    {
        self.faces.contains_key(font_key)
    }

    /// The face to ask FreeType for, in order to load an OpenType font from memory,
    /// or `None` if this context has already loaded a font with the same font key.
    ///
    /// `bytes` is the raw OpenType data, and `font_index` the index of the font
    /// within the collection, if `bytes` is a collection. The answer goes to
    /// [`FontContext::add_font_from_memory`].
    pub fn memory_face_request<'a>(
        &self,
        font_key: &FK,
        bytes: &'a Arc<Vec<u8>>,
        font_index: u32,
    ) -> (r: Option<MemoryFaceRequest<'a>>)
        requires
            ordered_key::<FK>(),
        ensures
            r is None <==> self@.contains_key(*font_key),
            r matches Some(request) ==> {
                &&& request.bytes == bytes
                &&& request.size == bytes@.len()
                &&& request.face_index == font_index
            },
    {
        if self.faces.contains_key(font_key) {
            None
        } else {
            Some(
                MemoryFaceRequest {
                    bytes: bytes,
                    size: bytes.len(),
                    face_index: font_index as i64,
                },
            )
        }
    }

    /// Loads an OpenType font from memory.
    ///
    /// `font_key` is a handle that is used to refer to the font later. If this
    /// context has already loaded a font with the same font key, nothing is done, and
    /// `Ok` is returned. `bytes` is the raw OpenType data, and `reply` the answer to
    /// the [request](FontContext::memory_face_request) for the face, if there was one.
    pub fn add_font_from_memory(
        &mut self,
        font_key: &FK,
        bytes: Arc<Vec<u8>>,
        reply: Option<FaceReply<H>>,
    ) -> (r: Result<(), ()>)
        requires
            lawful_key::<FK>(),
        ensures
            r is Ok <==> add_succeeds(old(self)@, *font_key, reply),
            final(self)@ == faces_after_add(old(self)@, *font_key, Some(bytes), reply),
            final(self).byte_order() == old(self).byte_order(),
    {
        self.add_face(font_key, Some(bytes), reply)
    }

    /// The face to ask FreeType for, in order to load a font from a file, or `None`
    /// if this context has already loaded a font with the same font key.
    ///
    /// `pathname` holds the bytes of the descriptor's path. The answer goes to
    /// [`FontContext::add_native_font`].
    pub fn native_face_request(
        &self,
        font_key: &FK,
        descriptor: &FontDescriptor,
        pathname: &[u8],
    ) -> (r: Option<FileFaceRequest>)
        requires
            ordered_key::<FK>(),
            self@.contains_key(*font_key) || names_file(pathname@),
        ensures
            r is None <==> self@.contains_key(*font_key),
            r matches Some(request) ==> {
                &&& request.pathname@ == pathname@.push(0)
                &&& request.face_index == descriptor.index
            },
    {
        if self.faces.contains_key(font_key) {
            None
        } else {
            Some(
                FileFaceRequest {
                    pathname: terminated(pathname),
                    face_index: descriptor.index as i64,
                },
            )
        }
    }

    /// Loads a font from a file.
    ///
    /// If this context has already loaded a font with the same font key, nothing is
    /// done, and `Ok` is returned. `reply` is the answer to the
    /// [request](FontContext::native_face_request) for the face, if there was one.
    pub fn add_native_font(&mut self, font_key: &FK, reply: Option<FaceReply<H>>) -> (r: Result<
        (),
        (),
    >)
        requires
            lawful_key::<FK>(),
        ensures
            r is Ok <==> add_succeeds(old(self)@, *font_key, reply),
            final(self)@ == faces_after_add(old(self)@, *font_key, None, reply),
            final(self).byte_order() == old(self).byte_order(),
    {
        self.add_face(font_key, None, reply)
    }

    /// Keeps the face that FreeType opened, unless the font key is taken.
    fn add_face(
        &mut self,
        font_key: &FK,
        bytes: Option<Arc<Vec<u8>>>,
        reply: Option<FaceReply<H>>,
    ) -> (r: Result<(), ()>)
        requires
            lawful_key::<FK>(),
        ensures
            r is Ok <==> add_succeeds(old(self)@, *font_key, reply),
            final(self)@ == faces_after_add(old(self)@, *font_key, bytes, reply),
            final(self).byte_order() == old(self).byte_order(),
    {
        if self.faces.contains_key(font_key) {
            return Ok(());
        }
        match reply {
            Some(FaceReply { error: 0, face: Some(face) }) => {
                let key: FK = font_key.clone();
                assert(cloned(*font_key, key));
                self.faces.insert(key, Face { face: face, bytes: bytes });
                Ok(())
            },
            _ => Err(()),
        }
    }

    /// Unloads the font with the given font key from memory.
    ///
    /// If the font isn't loaded, does nothing.
    pub fn delete_font(&mut self, font_key: &FK)
        requires
            ordered_key::<FK>(),
        ensures
            final(self)@ == old(self)@.remove(*font_key),
            final(self).byte_order() == old(self).byte_order(),
    {
        self.faces.remove(font_key);
    }

    /// The face and the character code to ask FreeType for the glyph index of `ch`,
    /// or `None` if the font isn't loaded. The answer is the index.
    pub fn get_char_index(&self, font_key: &FK, ch: char) -> (r: Option<(&H, u64)>)
        requires
            ordered_key::<FK>(),
        ensures
            r is Some <==> self@.contains_key(*font_key),
            r matches Some(question) ==> {
                &&& *question.0 == self@[*font_key].face
                &&& question.1 == ch as u64
            },
    {
        match self.faces.get(font_key) {
            Some(f) => Some((&f.face, ch as u64)),
            None => None,
        }
    }

    /// The glyph to ask FreeType for, or `None` if its font isn't loaded.
    ///
    /// The glyph is loaded at the size of the font instance, at one pixel to the
    /// point, without hinting. The answer goes to the methods below.
    pub fn glyph_request(&self, font_instance: &FontInstance<FK>, glyph_key: &GlyphKey) -> (r:
        Option<GlyphRequest<'_, H>>)
        requires
            ordered_key::<FK>(),
        ensures
            r is Some <==> self@.contains_key(font_instance.font_key),
            r matches Some(request) ==> {
                &&& *request.face == self@[font_instance.font_key].face
                &&& request.char_width == font_instance.size
                &&& request.char_height == 0
                &&& request.horizontal_resolution == DPI
                &&& request.vertical_resolution == 0
                &&& request.glyph_index == glyph_key.glyph_index
                &&& request.load_flags == LOAD_NO_HINTING
            },
    {
        match self.faces.get(&font_instance.font_key) {
            None => None,
            Some(face) => Some(
                GlyphRequest {
                    face: &face.face,
                    char_width: font_instance.size,
                    char_height: 0,
                    horizontal_resolution: DPI,
                    vertical_resolution: 0,
                    glyph_index: glyph_key.glyph_index,
                    load_flags: load_no_hinting(),
                },
            ),
        }
    }

    /// The slot of the glyph that was asked for, if the glyph lies in it as an
    /// outline.
    pub fn load_glyph<'a, O>(
        &self,
        font_instance: &FontInstance<FK>,
        reply: &'a GlyphReply<O>,
    ) -> (r: Option<&'a GlyphSlot<O>>)
        requires
            ordered_key::<FK>(),
        ensures
            r is Some <==> glyph_loads(self@, *font_instance, *reply),
            r matches Some(slot) ==> *slot == reply.slot,
    {
        if !self.faces.contains_key(&font_instance.font_key) {
            return None;
        }
        if reply.error != 0 {
            return None;
        }
        if reply.slot.format != glyph_format_outline() {
            return None;
        }
        Some(&reply.slot)
    }

    /// Returns the dimensions of the given glyph in the given font. `reply` is the
    /// answer to the [request](FontContext::glyph_request) for the glyph.
    ///
    /// If `exact` is true, then the raw outline extents as specified by the font
    /// designer are returned. These may differ from the extents when rendered on
    /// screen, because stem darkening dilates the outlines for easier reading. To
    /// retrieve extents that account for it, set `exact` to false.
    pub fn glyph_dimensions<O>(
        &self,
        font_instance: &FontInstance<FK>,
        exact: bool,
        reply: &GlyphReply<O>,
    ) -> (r: Result<GlyphDimensions, ()>)
        requires
            ordered_key::<FK>(),
            glyph_loads(self@, *font_instance, *reply) && reply.slot.hori_advance != 0
                ==> extents_fit(reply.slot.control_box, margin(*font_instance, exact)),
        ensures
            r is Ok <==> glyph_loads(self@, *font_instance, *reply) && reply.slot.hori_advance != 0,
            r matches Ok(dimensions) ==> dimensions.measure(
                reply.slot.control_box,
                margin(*font_instance, exact),
                reply.slot.hori_advance,
            ),
    {
        match self.load_glyph(font_instance, reply) {
            None => Err(()),
            Some(slot) => glyph_dimensions_from_slot(font_instance, slot, exact),
        }
    }

    /// Returns the outline of the given glyph in the given font. `reply` is the
    /// answer to the [request](FontContext::glyph_request) for the glyph.
    pub fn glyph_outline<'a, O>(
        &self,
        font_instance: &FontInstance<FK>,
        reply: &'a GlyphReply<O>,
    ) -> (r: Result<GlyphOutline<'a, O>, ()>)
        requires
            ordered_key::<FK>(),
        ensures
            r is Ok <==> glyph_loads(self@, *font_instance, *reply),
            r matches Ok(outline) ==> *outline.outline == reply.slot.outline,
    {
        match self.load_glyph(font_instance, reply) {
            None => Err(()),
            Some(slot) => Ok(GlyphOutline::new(&slot.outline)),
        }
    }

    /// The work to ask FreeType for in order to rasterize the given glyph, or `None`
    /// if the glyph is not there. `reply` is the answer to the
    /// [request](FontContext::glyph_request) for the glyph.
    ///
    /// The outline moves to the origin, taking the subpixel position into account,
    /// and is rendered for an LCD. What is then in the slot goes to
    /// [`FontContext::rasterize_glyph_with_native_rasterizer`].
    pub fn raster_plan<O>(
        &self,
        font_instance: &FontInstance<FK>,
        glyph_key: &GlyphKey,
        reply: &GlyphReply<O>,
    ) -> (r: Option<RasterPlan>)
        requires
            ordered_key::<FK>(),
            glyph_loads(self@, *font_instance, *reply) ==> plan_fits(
                reply.slot.control_box,
                glyph_key.subpixel_offset,
            ),
        ensures
            r is Some <==> glyph_loads(self@, *font_instance, *reply),
            r matches Some(plan) ==> {
                &&& plan.x_offset == origin_offset(
                    reply.slot.control_box.x_min as int,
                    glyph_key.subpixel_offset as int,
                )
                &&& plan.y_offset == origin_offset(reply.slot.control_box.y_min as int, 0)
                &&& plan.lcd_filter == LCD_FILTER_DEFAULT
                &&& plan.render_mode == RENDER_MODE_LCD
            },
    {
        match self.load_glyph(font_instance, reply) {
            None => None,
            Some(slot) => Some(plan(&slot.control_box, glyph_key.subpixel_offset)),
        }
    }

    /// Uses the FreeType library to rasterize a glyph on CPU. `reply` is the answer to
    /// the [request](FontContext::glyph_request) for the glyph, and `rendered` what the
    /// slot holds after the [plan](FontContext::raster_plan) was carried out, if there
    /// was one.
    ///
    /// If `exact` is true, then the raw outline extents as specified by the font
    /// designer are returned. These may differ from the extents when rendered on
    /// screen, because stem darkening dilates the outlines for easier reading. To
    /// retrieve extents that account for it, set `exact` to false.
    ///
    /// The bitmap is placed in these extents so that the pixel in which the moved
    /// outline begins is the lower left one inside the margin. Pixels of the bitmap
    /// beyond the extents are left out, and pixels that the bitmap does not have are
    /// uncovered.
    ///
    /// The bytes of a pixel lie in the byte order of the machine, whatever the glyph and
    /// the flag. Which of the two orders that is, the contract leaves open.
    pub fn rasterize_glyph_with_native_rasterizer<O>(
        &self,
        font_instance: &FontInstance<FK>,
        reply: &GlyphReply<O>,
        rendered: Option<&RenderedGlyph<'_>>,
        exact: bool,
    ) -> (r: Result<GlyphImage, ()>)
        requires
            ordered_key::<FK>(),
            glyph_rasterizes(self@, *font_instance, *reply, rendered) ==> {
                &&& rendered->0.readable()
                &&& image_fits(reply.slot.control_box, margin(*font_instance, exact))
            },
        ensures
            r is Ok <==> glyph_rasterizes(self@, *font_instance, *reply, rendered),
            r matches Ok(image) ==> {
                &&& image.dimensions.measure(
                    reply.slot.control_box,
                    margin(*font_instance, exact),
                    rendered->0.hori_advance,
                )
                &&& image.shows(*rendered->0, margin(*font_instance, exact), self.byte_order())
                &&& is_machine_order(self.byte_order())
            },
    {
        match self.load_glyph(font_instance, reply) {
            None => Err(()),
            Some(slot) => match rendered {
                None => Err(()),
                Some(bitmap) => glyph_image(
                    font_instance,
                    slot,
                    bitmap,
                    exact,
                    self.order.order(),
                ),
            },
        }
    }
}

} // verus!
