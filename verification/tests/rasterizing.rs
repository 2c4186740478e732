use font_renderer::context::FontContext;
use font_renderer::face::FaceReply;
use font_renderer::geometry::{BBox, Point, Size};
use font_renderer::glyph::{
    can_frame, measure_outline, FontInstance, GlyphImage, GlyphKey, GlyphReply, GlyphSlot,
};
use font_renderer::raster::{
    buffer_len, can_plan, convert_vec_u32_to_vec_u8, frame, glyph_image, plan, unpack, ByteOrder,
    RenderedGlyph,
};

const LCD: u32 = freetype_sys::FT_PIXEL_MODE_LCD;

fn context() -> FontContext<u32, u64> {
    let mut context = match FontContext::new(0) {
        Ok(context) => context,
        Err(()) => panic!("initialization succeeded"),
    };
    assert_eq!(
        context.add_native_font(&1, Some(FaceReply { error: 0, face: Some(100) })),
        Ok(()),
    );
    context
}

fn instance(font_key: u32) -> FontInstance<u32> {
    FontInstance { font_key: font_key, size: 1024, stem_darkening_radius: 1 }
}

fn reply(error: i32, format: u32) -> GlyphReply<()> {
    GlyphReply {
        error: error,
        slot: GlyphSlot {
            format: format,
            hori_advance: 640,
            control_box: BBox { x_min: 70, y_min: -10, x_max: 200, y_max: 300 },
            outline: (),
        },
    }
}

fn outline() -> GlyphReply<()> {
    reply(0, freetype_sys::FT_GLYPH_FORMAT_OUTLINE)
}

/// Two rows of two pixels, with two bytes of padding after each row.
const BITMAP: [u8; 16] = [
    0, 1, 2, 253, 254, 255, 77, 77,
    10, 20, 30, 100, 150, 200, 77, 77,
];

const WORDS: [u32; 4] = [0xffff_fefd, 0xff02_0100, 0xfff5_ebe1, 0xff9b_6937];

fn rendered<'a>(pixel_mode: u32, buffer: &'a [u8]) -> RenderedGlyph<'a> {
    RenderedGlyph {
        pixel_mode: pixel_mode,
        width: 6,
        rows: 2,
        pitch: 8,
        buffer: buffer,
        left: -3,
        top: 12,
        hori_advance: 650,
    }
}

#[test]
fn plan_moves_outline_to_origin() {
    let control_box = BBox { x_min: 70, y_min: -10, x_max: 200, y_max: 300 };
    let unmoved = plan(&control_box, 0);
    assert_eq!((unmoved.x_offset, unmoved.y_offset), (-64, 64));
    assert_eq!((70 + unmoved.x_offset, -10 + unmoved.y_offset), (6, 54));
    let moved = plan(&control_box, 16);
    assert_eq!((moved.x_offset, moved.y_offset), (-48, 64));
    assert_eq!(70 + moved.x_offset, (70 + 16) % 64);
    let carried = plan(&control_box, 60);
    assert_eq!((carried.x_offset, carried.y_offset), (-68, 64));
    assert_eq!(70 + carried.x_offset, 2);
}

#[test]
fn plan_asks_for_lcd_rendering() {
    let context = context();
    let key = GlyphKey { glyph_index: 42, subpixel_offset: 16 };
    match context.raster_plan(&instance(1), &key, &outline()) {
        None => panic!("the glyph is there"),
        Some(plan) => {
            assert_eq!((plan.x_offset, plan.y_offset), (-48, 64));
            assert_eq!(plan.lcd_filter, freetype_sys::FT_LCD_FILTER_DEFAULT);
            assert_eq!(plan.render_mode, freetype_sys::FT_RENDER_MODE_LCD);
        },
    }
    assert!(context.raster_plan(&instance(2), &key, &outline()).is_none());
    assert!(context.raster_plan(&instance(1), &key, &reply(3, 0x6f75_746c)).is_none());
    assert!(context.raster_plan(&instance(1), &key, &reply(0, 0)).is_none());
}

#[test]
fn outlines_beyond_range_cannot_be_planned() {
    let at = |x_min: i64, y_min: i64| BBox { x_min: x_min, y_min: y_min, x_max: 0, y_max: 0 };
    assert!(can_plan(&at(70, -10), 16));
    assert!(can_plan(&at(i64::MAX, 0), 0));
    assert!(!can_plan(&at(i64::MAX, 0), 1));
    assert!(!can_plan(&at(i64::MIN, 0), 0));
    assert!(!can_plan(&at(i64::MIN, 0), -1));
    assert!(!can_plan(&at(0, i64::MIN), 0));
    assert!(!can_plan(&at(0, i64::MIN + 63), 0));
    assert!(can_plan(&at(0, i64::MIN + 64), 0));
}

#[test]
fn subpixels_are_inverted_and_packed() {
    assert_eq!(unpack(&rendered(LCD, &BITMAP)), WORDS.to_vec());
}

#[test]
fn empty_bitmap_unpacks_to_nothing() {
    let mut blank = rendered(LCD, &[]);
    blank.width = 0;
    blank.rows = 0;
    blank.pitch = 0;
    assert!(blank.is_readable());
    assert!(unpack(&blank).is_empty());
    blank.pitch = -4;
    assert!(blank.is_readable());
    assert!(unpack(&blank).is_empty());
    let padding = [1, 2];
    let narrow = RenderedGlyph { width: 0, rows: 2, pitch: 1, ..rendered(LCD, &padding) };
    assert!(narrow.is_readable());
    assert!(unpack(&narrow).is_empty());
}

#[test]
fn words_lie_in_given_order() {
    let words = vec![0x0102_0304, 0xffee_ddcc];
    assert_eq!(
        convert_vec_u32_to_vec_u8(words.clone(), ByteOrder::LittleEndian),
        vec![4, 3, 2, 1, 0xcc, 0xdd, 0xee, 0xff],
    );
    assert_eq!(
        convert_vec_u32_to_vec_u8(words, ByteOrder::BigEndian),
        vec![1, 2, 3, 4, 0xff, 0xee, 0xdd, 0xcc],
    );
    assert!(convert_vec_u32_to_vec_u8(vec![], ByteOrder::BigEndian).is_empty());
}

#[test]
fn words_can_be_read_back() {
    let bytes = convert_vec_u32_to_vec_u8(WORDS.to_vec(), ByteOrder::LittleEndian);
    let word = u32::from_le_bytes([bytes[4], bytes[5], bytes[6], bytes[7]]);
    assert_eq!(word, WORDS[1]);
    let bytes = convert_vec_u32_to_vec_u8(WORDS.to_vec(), ByteOrder::BigEndian);
    let word = u32::from_be_bytes([bytes[8], bytes[9], bytes[10], bytes[11]]);
    assert_eq!(word, WORDS[2]);
}

#[test]
fn buffer_length_is_rows_times_pitch() {
    assert_eq!(buffer_len(8, 2), Some(16));
    assert_eq!(buffer_len(0, 5), Some(0));
    assert_eq!(buffer_len(-8, 0), Some(0));
    assert_eq!(buffer_len(-8, 2), None);
}

/// An outline two pixels wide and two high, whose bitmap starts in its lower left pixel.
fn small_outline() -> GlyphReply<()> {
    let mut small = outline();
    small.slot.control_box = BBox { x_min: 70, y_min: -10, x_max: 190, y_max: 60 };
    small
}

fn placed<'a>(left: i32, top: i32) -> RenderedGlyph<'a> {
    RenderedGlyph { left: left, top: top, ..rendered(LCD, &BITMAP) }
}

fn image(bitmap: &RenderedGlyph, exact: bool, order: ByteOrder) -> GlyphImage {
    match glyph_image(&instance(1), &small_outline().slot, bitmap, exact, order) {
        Ok(image) => image,
        Err(()) => panic!("the bitmap is for an LCD"),
    }
}

const BLANK: u32 = 0xffff_ffff;

#[test]
fn exact_image_has_extents_of_outline() {
    let image = image(&placed(0, 2), true, ByteOrder::LittleEndian);
    assert_eq!(image.dimensions.origin, Point { x: 1, y: -1 });
    assert_eq!(image.dimensions.size, Size { width: 2, height: 2 });
    assert_eq!(image.dimensions.advance, 650);
    assert_eq!(
        image.pixels,
        vec![253, 254, 255, 255, 0, 1, 2, 255, 225, 235, 245, 255, 55, 105, 155, 255],
    );
}

#[test]
fn image_extents_account_for_stem_darkening() {
    let image = image(&placed(0, 2), false, ByteOrder::BigEndian);
    assert_eq!(image.dimensions.origin, Point { x: 0, y: -2 });
    assert_eq!(image.dimensions.size, Size { width: 4, height: 4 });
    assert_eq!(image.dimensions.advance, 650);
    let words = vec![
        BLANK, BLANK, BLANK, BLANK,
        BLANK, WORDS[0], WORDS[1], BLANK,
        BLANK, WORDS[2], WORDS[3], BLANK,
        BLANK, BLANK, BLANK, BLANK,
    ];
    assert_eq!(image.pixels, convert_vec_u32_to_vec_u8(words, ByteOrder::BigEndian));
}

#[test]
fn darkened_image_encloses_exact_image() {
    let bitmap = placed(0, 2);
    let exact = image(&bitmap, true, ByteOrder::LittleEndian);
    let darkened = image(&bitmap, false, ByteOrder::LittleEndian);
    let (a, b) = (exact.dimensions, darkened.dimensions);
    assert!(b.origin.x < a.origin.x && b.origin.y < a.origin.y);
    assert!(b.origin.x + b.size.width as i32 > a.origin.x + a.size.width as i32);
    assert!(b.origin.y + b.size.height as i32 > a.origin.y + a.size.height as i32);
    for y in 0..2 {
        for x in 0..2 {
            let inner = 4 * (y * 2 + x);
            let outer = 4 * ((y + 1) * 4 + x + 1);
            assert_eq!(exact.pixels[inner..inner + 4], darkened.pixels[outer..outer + 4]);
        }
    }
}

#[test]
fn image_has_dimensions_of_measured_outline() {
    for exact in [true, false] {
        let image = image(&placed(0, 2), exact, ByteOrder::LittleEndian);
        let measured = measure_outline(&instance(1), &small_outline().slot, exact);
        assert_eq!(image.dimensions.origin, measured.origin);
        assert_eq!(image.dimensions.size, measured.size);
        assert_eq!((measured.advance, image.dimensions.advance), (640, 650));
    }
}

#[test]
fn bitmap_is_placed_by_its_corner() {
    let size = Size { width: 3, height: 2 };
    assert_eq!(
        frame(&placed(1, 2), size, 0),
        vec![BLANK, WORDS[0], WORDS[1], BLANK, WORDS[2], WORDS[3]],
    );
    assert_eq!(
        frame(&placed(0, 1), size, 0),
        vec![BLANK, BLANK, BLANK, WORDS[0], WORDS[1], BLANK],
    );
}

#[test]
fn bitmap_beyond_image_is_left_out() {
    let size = Size { width: 1, height: 1 };
    assert_eq!(frame(&placed(-1, 2), size, 0), vec![WORDS[3]]);
    assert_eq!(frame(&placed(0, 1), size, 0), vec![WORDS[0]]);
    assert_eq!(frame(&placed(5, 5), size, 0), vec![BLANK]);
    assert_eq!(frame(&placed(i32::MIN, i32::MAX), size, i32::MIN), vec![BLANK]);
    assert!(frame(&placed(0, 2), Size { width: 0, height: 9 }, 0).is_empty());
}

#[test]
fn image_has_four_opaque_bytes_for_each_pixel() {
    for exact in [true, false] {
        let image = image(&placed(-1, 2), exact, ByteOrder::BigEndian);
        let size = image.dimensions.size;
        let count = size.width as usize * size.height as usize;
        assert_eq!(image.pixels.len(), 4 * count);
        for i in 0..count {
            assert_eq!(image.pixels[4 * i], 255);
        }
    }
}

#[test]
fn other_pixel_modes_make_no_image() {
    let gray = freetype_sys::FT_PIXEL_MODE_GRAY;
    for bitmap in [rendered(gray, &BITMAP), rendered(gray, &[]), rendered(0, &[])] {
        let slot = small_outline().slot;
        assert!(glyph_image(&instance(1), &slot, &bitmap, true, ByteOrder::BigEndian).is_err());
    }
}

#[test]
fn rasterized_pixels_lie_as_in_memory() {
    let context = context();
    let bitmap = placed(0, 2);
    let image = match context.rasterize_glyph_with_native_rasterizer(
        &instance(1),
        &small_outline(),
        Some(&bitmap),
        true,
    ) {
        Ok(image) => image,
        Err(()) => panic!("the glyph is there"),
    };
    let mut memory: Vec<u8> = Vec::new();
    for word in WORDS {
        memory.extend_from_slice(&word.to_ne_bytes());
    }
    assert_eq!(image.pixels, memory);
    assert_eq!(image.dimensions.size, Size { width: 2, height: 2 });
}

#[test]
fn rasterizer_obeys_exact_flag() {
    let context = context();
    let bitmap = placed(0, 2);
    let size = |exact: bool| {
        match context.rasterize_glyph_with_native_rasterizer(
            &instance(1),
            &small_outline(),
            Some(&bitmap),
            exact,
        ) {
            Ok(image) => (image.dimensions.origin, image.dimensions.size),
            Err(()) => panic!("the glyph is there"),
        }
    };
    assert_eq!(size(true), (Point { x: 1, y: -1 }, Size { width: 2, height: 2 }));
    assert_eq!(size(false), (Point { x: 0, y: -2 }, Size { width: 4, height: 4 }));
}

#[test]
fn glyph_without_advance_is_rasterized() {
    let context = context();
    let mut reply = small_outline();
    reply.slot.hori_advance = 0;
    let bitmap = RenderedGlyph { hori_advance: 0, ..placed(0, 2) };
    assert_eq!(context.glyph_dimensions(&instance(1), true, &reply), Err(()));
    match context.rasterize_glyph_with_native_rasterizer(
        &instance(1),
        &reply,
        Some(&bitmap),
        true,
    ) {
        Ok(image) => assert_eq!(image.dimensions.advance, 0),
        Err(()) => panic!("the glyph is there"),
    }
}

#[test]
fn glyph_that_is_not_there_is_not_rasterized() {
    let context = context();
    let slot = rendered(LCD, &BITMAP);
    let rasterize = |font_key: u32, reply: GlyphReply<()>, slot: Option<&RenderedGlyph>| {
        context
            .rasterize_glyph_with_native_rasterizer(&instance(font_key), &reply, slot, true)
            .is_ok()
    };
    assert!(rasterize(1, outline(), Some(&slot)));
    assert!(!rasterize(2, outline(), Some(&slot)));
    assert!(!rasterize(1, reply(6, 0x6f75_746c), Some(&slot)));
    assert!(!rasterize(1, reply(0, 0x6269_7473), Some(&slot)));
    assert!(!rasterize(1, outline(), None));
    let gray = rendered(freetype_sys::FT_PIXEL_MODE_GRAY, &BITMAP);
    assert!(!rasterize(1, outline(), Some(&gray)));
}

#[test]
fn unreadable_bitmaps_are_told_apart() {
    assert!(rendered(LCD, &BITMAP).is_readable());
    assert!(!rendered(LCD, &BITMAP[1..]).is_readable());
    let wide = RenderedGlyph { width: 9, ..rendered(LCD, &BITMAP) };
    assert!(!wide.is_readable());
    let upwards = RenderedGlyph { pitch: -8, ..rendered(LCD, &BITMAP) };
    assert!(!upwards.is_readable());
    let upwards_gray = RenderedGlyph { pitch: -8, ..rendered(2, &BITMAP) };
    assert!(upwards_gray.is_readable());
}

#[test]
fn rest_of_row_that_makes_no_pixel_is_left_out() {
    let ragged = RenderedGlyph { width: 8, ..rendered(LCD, &BITMAP) };
    assert!(ragged.is_readable());
    assert_eq!(unpack(&ragged), WORDS.to_vec());
}

#[test]
fn images_beyond_range_cannot_be_framed() {
    let mut large = outline();
    assert!(can_frame(&instance(1), &large.slot, true));
    large.slot.control_box = BBox { x_min: 0, y_min: 0, x_max: 64 << 16, y_max: 64 * 65535 };
    assert!(can_frame(&instance(1), &large.slot, true));
    assert!(!can_frame(&instance(1), &large.slot, false));
    large.slot.control_box = BBox { x_min: 0, y_min: 0, x_max: 64 << 16, y_max: 64 << 16 };
    assert!(!can_frame(&instance(1), &large.slot, true));
    large.slot.control_box = BBox { x_min: 0, y_min: 0, x_max: i64::MAX, y_max: 0 };
    assert!(!can_frame(&instance(1), &large.slot, true));
}
