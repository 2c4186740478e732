//! The constants of FreeType that the requests name and the replies are tested
//! against.
use vstd::prelude::*;

verus! {

/// Loads a glyph without hinting it.
pub const LOAD_NO_HINTING: i32 = 2;

/// The slot holds an outline: the four letters `outl`.
pub const GLYPH_FORMAT_OUTLINE: u32 = 0x6f75_746c;

/// FreeType's default five-tap filter against color fringes.
pub const LCD_FILTER_DEFAULT: u32 = 1;

/// Renders three subpixels side by side for each pixel.
pub const RENDER_MODE_LCD: u32 = 3;

/// The bitmap holds three subpixels side by side for each pixel.
pub const PIXEL_MODE_LCD: u32 = 5;

/// Trusted: the value of `freetype_sys::FT_LOAD_NO_HINTING`.
#[verifier::external_body]
pub(crate) fn load_no_hinting() -> (r: i32)
    ensures
        r == LOAD_NO_HINTING,
{
    freetype_sys::FT_LOAD_NO_HINTING
}

/// Trusted: the value of `freetype_sys::FT_GLYPH_FORMAT_OUTLINE`.
#[verifier::external_body]
pub(crate) fn glyph_format_outline() -> (r: u32)
    ensures
        r == GLYPH_FORMAT_OUTLINE,
{
    freetype_sys::FT_GLYPH_FORMAT_OUTLINE
}

/// Trusted: the value of `freetype_sys::FT_LCD_FILTER_DEFAULT`.
#[verifier::external_body]
pub(crate) fn lcd_filter_default() -> (r: u32)
    ensures
        r == LCD_FILTER_DEFAULT,
{
    freetype_sys::FT_LCD_FILTER_DEFAULT
}

/// Trusted: the value of `freetype_sys::FT_RENDER_MODE_LCD`.
#[verifier::external_body]
pub(crate) fn render_mode_lcd() -> (r: u32)
    ensures
        r == RENDER_MODE_LCD,
{
    freetype_sys::FT_RENDER_MODE_LCD
}

/// Trusted: the value of `freetype_sys::FT_PIXEL_MODE_LCD`.
#[verifier::external_body]
pub(crate) fn pixel_mode_lcd() -> (r: u32)
    ensures
        r == PIXEL_MODE_LCD,
{
    freetype_sys::FT_PIXEL_MODE_LCD
}

} // verus!
