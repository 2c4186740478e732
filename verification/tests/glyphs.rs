use font_renderer::context::FontContext;
use font_renderer::face::FaceReply;
use font_renderer::fixed::{f26dot6_to_i32_rounding_up, floor};
use font_renderer::geometry::{BBox, Point, Size};
use font_renderer::glyph::{
    bounding_box_from_slot, can_measure, glyph_dimensions_from_slot, FontInstance, GlyphKey,
    GlyphReply, GlyphSlot,
};

const OUTLINE: u32 = freetype_sys::FT_GLYPH_FORMAT_OUTLINE;

fn context() -> FontContext<u32, u64> {
    let mut context = match FontContext::new(0) {
        Ok(context) => context,
        Err(()) => panic!("initialization succeeded"),
    };
    assert_eq!(
        context.add_native_font(&1, Some(FaceReply { error: 0, face: Some(100) })),
        Ok(()),
    );
    context
}

fn instance(font_key: u32) -> FontInstance<u32> {
    FontInstance { font_key: font_key, size: 16 * 64, stem_darkening_radius: 1 }
}

fn control_box() -> BBox {
    BBox { x_min: 10, y_min: -70, x_max: 640, y_max: 641 }
}

fn reply(error: i32, format: u32, hori_advance: i64) -> GlyphReply<&'static str> {
    GlyphReply {
        error: error,
        slot: GlyphSlot {
            format: format,
            hori_advance: hori_advance,
            control_box: control_box(),
            outline: "curves",
        },
    }
}

#[test]
fn floor_rounds_down_to_pixels() {
    assert_eq!(floor(0), 0);
    assert_eq!(floor(1), 0);
    assert_eq!(floor(63), 0);
    assert_eq!(floor(64), 64);
    assert_eq!(floor(-1), -64);
    assert_eq!(floor(-64), -64);
    assert_eq!(floor(-65), -128);
    assert_eq!(floor(i64::MIN), i64::MIN);
    assert_eq!(floor(i64::MAX), i64::MAX - 63);
}

#[test]
fn whole_pixels_convert_exactly() {
    assert_eq!(f26dot6_to_i32_rounding_up(0), 0);
    assert_eq!(f26dot6_to_i32_rounding_up(64), 1);
    assert_eq!(f26dot6_to_i32_rounding_up(-64), -1);
    assert_eq!(f26dot6_to_i32_rounding_up(64 * 1000), 1000);
    assert_eq!(f26dot6_to_i32_rounding_up(64 * i32::MAX as i64), i32::MAX);
    assert_eq!(f26dot6_to_i32_rounding_up(64 * i32::MIN as i64), i32::MIN);
}

#[test]
fn fractions_convert_to_nearest_pixel() {
    assert_eq!(f26dot6_to_i32_rounding_up(32), 0);
    assert_eq!(f26dot6_to_i32_rounding_up(33), 1);
    assert_eq!(f26dot6_to_i32_rounding_up(-31), 0);
    assert_eq!(f26dot6_to_i32_rounding_up(-32), -1);
}

#[test]
fn conversion_keeps_low_bits() {
    assert_eq!(f26dot6_to_i32_rounding_up(1 << 37), i32::MIN);
    assert_eq!(f26dot6_to_i32_rounding_up(1 << 38), 0);
    assert_eq!(f26dot6_to_i32_rounding_up((1 << 38) + 128), 2);
}

#[test]
fn glyph_request_names_face_size_and_glyph() {
    let context = context();
    let key = GlyphKey { glyph_index: 42, subpixel_offset: 16 };
    match context.glyph_request(&instance(1), &key) {
        None => panic!("the font is loaded"),
        Some(request) => {
            assert_eq!(*request.face, 100);
            assert_eq!(request.char_width, 1024);
            assert_eq!(request.char_height, 0);
            assert_eq!(request.horizontal_resolution, 72);
            assert_eq!(request.vertical_resolution, 0);
            assert_eq!(request.glyph_index, 42);
            assert_eq!(request.load_flags, freetype_sys::FT_LOAD_NO_HINTING);
        },
    }
    assert!(context.glyph_request(&instance(2), &key).is_none());
}

#[test]
fn glyph_loads_only_as_outline_of_loaded_font() {
    let context = context();
    assert!(context.load_glyph(&instance(1), &reply(0, OUTLINE, 640)).is_some());
    assert!(context.load_glyph(&instance(2), &reply(0, OUTLINE, 640)).is_none());
    assert!(context.load_glyph(&instance(1), &reply(6, OUTLINE, 640)).is_none());
    let bitmap = freetype_sys::FT_GLYPH_FORMAT_BITMAP;
    assert!(context.load_glyph(&instance(1), &reply(0, bitmap, 640)).is_none());
    assert!(context.load_glyph(&instance(1), &reply(0, 0, 640)).is_none());
}

#[test]
fn deleted_font_has_no_glyphs() {
    let mut context = context();
    context.delete_font(&1);
    let key = GlyphKey { glyph_index: 42, subpixel_offset: 0 };
    assert!(context.glyph_request(&instance(1), &key).is_none());
    assert!(context.load_glyph(&instance(1), &reply(0, OUTLINE, 640)).is_none());
    assert_eq!(context.glyph_dimensions(&instance(1), true, &reply(0, OUTLINE, 640)), Err(()));
}

#[test]
fn bounding_box_is_outset_to_pixels() {
    let loaded = reply(0, OUTLINE, 640);
    assert_eq!(
        bounding_box_from_slot(&loaded.slot),
        BBox { x_min: 0, y_min: -128, x_max: 640, y_max: 704 },
    );
}

#[test]
fn exact_dimensions_are_those_of_outline() {
    let context = context();
    let dimensions = match context.glyph_dimensions(&instance(1), true, &reply(0, OUTLINE, 650)) {
        Ok(dimensions) => dimensions,
        Err(()) => panic!("the glyph is there"),
    };
    assert_eq!(dimensions.origin, Point { x: 0, y: -2 });
    assert_eq!(dimensions.size, Size { width: 10, height: 13 });
    assert_eq!(dimensions.advance, 650);
}

#[test]
fn dimensions_account_for_stem_darkening() {
    let context = context();
    let dimensions = match context.glyph_dimensions(&instance(1), false, &reply(0, OUTLINE, 650)) {
        Ok(dimensions) => dimensions,
        Err(()) => panic!("the glyph is there"),
    };
    assert_eq!(dimensions.origin, Point { x: -1, y: -3 });
    assert_eq!(dimensions.size, Size { width: 12, height: 15 });
    assert_eq!(dimensions.advance, 650);
}

#[test]
fn glyph_without_advance_has_no_dimensions() {
    let context = context();
    assert_eq!(context.glyph_dimensions(&instance(1), true, &reply(0, OUTLINE, 0)), Err(()));
    assert_eq!(
        glyph_dimensions_from_slot(&instance(1), &reply(0, OUTLINE, 0).slot, false),
        Err(()),
    );
    assert!(context.glyph_dimensions(&instance(1), true, &reply(0, OUTLINE, -64)).is_ok());
}

#[test]
fn failed_load_has_no_dimensions() {
    let context = context();
    assert_eq!(context.glyph_dimensions(&instance(2), true, &reply(0, OUTLINE, 64)), Err(()));
    assert_eq!(context.glyph_dimensions(&instance(1), true, &reply(1, OUTLINE, 64)), Err(()));
    assert_eq!(context.glyph_dimensions(&instance(1), true, &reply(0, 1, 64)), Err(()));
}

#[test]
fn turned_box_wraps_around() {
    let context = context();
    let mut turned = reply(0, OUTLINE, 64);
    turned.slot.control_box = BBox { x_min: 128, y_min: 0, x_max: 0, y_max: 0 };
    let dimensions = match context.glyph_dimensions(&instance(1), true, &turned) {
        Ok(dimensions) => dimensions,
        Err(()) => panic!("the glyph is there"),
    };
    assert_eq!(dimensions.origin, Point { x: 2, y: 0 });
    assert_eq!(dimensions.size, Size { width: u32::MAX - 1, height: 0 });
}

#[test]
fn extents_beyond_range_cannot_be_measured() {
    let mut far = reply(0, OUTLINE, 64);
    assert!(can_measure(&instance(1), &far.slot, true));
    assert!(can_measure(&instance(1), &far.slot, false));
    far.slot.control_box = BBox { x_min: 0, y_min: 0, x_max: i64::MAX - 62, y_max: 0 };
    assert!(!can_measure(&instance(1), &far.slot, true));
    far.slot.control_box = BBox { x_min: 64 * i32::MIN as i64, y_min: 0, x_max: -64, y_max: 0 };
    assert!(can_measure(&instance(1), &far.slot, true));
    assert!(!can_measure(&instance(1), &far.slot, false));
    far.slot.control_box = BBox { x_min: 64 * i32::MIN as i64, y_min: 0, x_max: 0, y_max: 0 };
    assert!(!can_measure(&instance(1), &far.slot, true));
    let boundless = FontInstance { font_key: 1, size: 64, stem_darkening_radius: i32::MIN };
    far.slot.control_box = control_box();
    assert!(!can_measure(&boundless, &far.slot, false));
    assert!(can_measure(&boundless, &far.slot, true));
}

#[test]
fn outline_is_handed_out() {
    let context = context();
    match context.glyph_outline(&instance(1), &reply(0, OUTLINE, 0)) {
        Ok(outline) => assert_eq!(*outline.outline, "curves"),
        Err(()) => panic!("the glyph is there"),
    }
    assert!(context.glyph_outline(&instance(2), &reply(0, OUTLINE, 0)).is_err());
    assert!(context.glyph_outline(&instance(1), &reply(1, OUTLINE, 0)).is_err());
    assert!(context.glyph_outline(&instance(1), &reply(0, 0, 0)).is_err());
}

#[test]
fn floor_is_idempotent_and_monotone() {
    for x in -200..200 {
        assert_eq!(floor(floor(x)), floor(x));
        assert!(floor(x) <= floor(x + 1));
        assert!(floor(x) <= x && x < floor(x) + 64);
    }
}

#[test]
fn dimensions_cover_outline_tightly() {
    let context = context();
    for exact in [true, false] {
        let margin: i64 = if exact { 0 } else { 1 };
        let loaded = reply(0, OUTLINE, 64);
        let dimensions = match context.glyph_dimensions(&instance(1), exact, &loaded) {
            Ok(dimensions) => dimensions,
            Err(()) => panic!("the glyph is there"),
        };
        let left = 64 * (dimensions.origin.x as i64 + margin);
        let top = 64 * (dimensions.origin.y as i64 + dimensions.size.height as i64 - margin);
        assert!(control_box().x_min - 64 < left && left <= control_box().x_min);
        assert!(control_box().y_max <= top && top < control_box().y_max + 64);
    }
}
