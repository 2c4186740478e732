//! Points, sizes and boxes, and the computations on them that `euclid` does.
use vstd::prelude::*;

use crate::fixed::F26Dot6;

verus! {

/// A point in whole pixels.
#[derive(Clone, Copy, Debug, PartialEq, Eq, Structural)]
pub struct Point {
    pub x: i32,
    pub y: i32,
}

/// An extent in whole pixels.
#[derive(Clone, Copy, Debug, PartialEq, Eq, Structural)]
pub struct Size {
    pub width: u32,
    pub height: u32,
}

/// A box in 1/64 of a pixel.
#[derive(Clone, Copy, Debug, PartialEq, Eq, Structural)]
pub struct BBox {
    pub x_min: F26Dot6,
    pub y_min: F26Dot6,
    pub x_max: F26Dot6,
    pub y_max: F26Dot6,
}

/// Moves `point` by `(dx, dy)`.
///
/// Trusted: `+=` of a `euclid::Point2D<i32>` and a `euclid::Vector2D<i32>` adds
/// the two coordinates separately, with the `+` of `i32`. That `+` has no result
/// where the sum leaves the type, hence the precondition.
#[verifier::external_body]
pub(crate) fn translate(point: Point, dx: i32, dy: i32) -> (r: Point)
    requires
        i32::MIN <= point.x + dx <= i32::MAX,
        i32::MIN <= point.y + dy <= i32::MAX,
    ensures
        r.x == point.x + dx,
        r.y == point.y + dy,
{
    let mut moved = euclid::Point2D::new(point.x, point.y);
    moved += euclid::Vector2D::new(dx, dy);
    Point { x: moved.x, y: moved.y }
}

/// The number of pixels in `size`.
///
/// Trusted: `euclid::Size2D::<u32>::area` multiplies width and height with the
/// `*` of `u32`. That `*` has no result where the product leaves the type, hence
/// the precondition.
#[verifier::external_body]
pub(crate) fn area(size: Size) -> (r: u32)
    requires
        size.width * size.height <= u32::MAX,
    ensures
        r == size.width * size.height,
{
    euclid::Size2D::new(size.width, size.height).area()
}

} // verus!
