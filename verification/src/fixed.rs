//! Signed fixed-point numbers with six fractional bits, the unit in which
//! FreeType reports outlines and metrics.
use vstd::prelude::*;

verus! {

/// A coordinate in 1/64 of a pixel.
pub type F26Dot6 = i64;

/// The largest whole number of pixels that is not above `x`, in 1/64 pixel.
pub open spec fn pixel_floor(x: int) -> int {
    x - x % 64
}

/// The `i32` that is congruent to `v` modulo 2^32.
pub open spec fn wrap_i32(v: int) -> int {
    (v + 0x8000_0000) % 0x1_0000_0000 - 0x8000_0000
}

/// The `u32` that is congruent to `v` modulo 2^32.
pub open spec fn wrap_u32(v: int) -> int {
    v % 0x1_0000_0000
}

/// The pixel nearest to `x`, where a coordinate halfway between two pixels
/// belongs to the lower one.
pub open spec fn nearest_pixel(x: int) -> int {
    (x + 31) / 64
}

/// Rounds `x` down to a whole number of pixels.
pub fn floor(x: F26Dot6) -> (r: F26Dot6)
    ensures
        r == pixel_floor(x as int),
{
    assert(x & !0x3fi64 == x - x % 64) by (bit_vector);
    x & !0x3f
}

/// Converts `x` to whole pixels, as [`nearest_pixel`] says, and keeps the low
/// 32 bits.
///
/// The callers hand it coordinates on pixel boundaries, where every rounding
/// agrees.
pub fn f26dot6_to_i32_rounding_up(x: F26Dot6) -> (r: i32)
    requires
        x + 32 <= i64::MAX,
    ensures
        r == wrap_i32(nearest_pixel(x as int)),
{
    assert(1i64 << 5 == 32) by (bit_vector);
    let shifted: i64 = (x + (1 << 5) - 1) >> 6;
    proof {
        let y: i64 = (x + 31) as i64;
        assert(y >> 6 == y / 64) by (bit_vector);
        lemma_i64_to_i32(shifted);
    }
    #[verifier::truncate]
    (shifted as i32)
}

/// Reads the low 32 bits of a difference of two `i32` as an unsigned number.
pub(crate) fn i32_to_u32(v: i32) -> (r: u32)
    ensures
        r == wrap_u32(v as int),
{
    proof {
        lemma_i32_to_u32(v);
    }
    #[verifier::truncate]
    (v as u32)
}

proof fn lemma_i64_to_i32(v: i64)
    ensures
        v as i32 == wrap_i32(v as int),
{
    assert(v as i32 == (v + 0x8000_0000) % 0x1_0000_0000 - 0x8000_0000) by (bit_vector);
}

proof fn lemma_i32_to_u32(v: i32)
    ensures
        v as u32 == wrap_u32(v as int),
{
    let wide: i64 = v as i64;
    assert(wide as u32 == wide % 0x1_0000_0000) by (bit_vector);
    assert(wide as u32 == v as u32) by (bit_vector)
        requires
            wide == v as i64,
    ;
}

} // verus!
