//! Rasterizing a glyph with FreeType's LCD renderer: where the outline goes
//! before it is rendered, and what the rendered bitmap holds.
use vstd::arithmetic::div_mod::lemma_fundamental_div_mod_converse;
use vstd::prelude::*;

use crate::fixed::{floor, pixel_floor, F26Dot6};
use crate::freetype::{
    lcd_filter_default, pixel_mode_lcd, render_mode_lcd, LCD_FILTER_DEFAULT, PIXEL_MODE_LCD,
    RENDER_MODE_LCD,
};
use crate::geometry::{area, BBox, Size};
use crate::glyph::{
    image_fits, margin, measure_outline, outline_margin, FontInstance, GlyphDimensions, GlyphImage,
    GlyphSlot,
};

verus! {

/// The work that the rasterizer is asked for on a loaded outline: move the
/// outline, set the filter, render.
#[derive(Clone, Copy, Debug, PartialEq, Eq, Structural)]
pub struct RasterPlan {
    pub x_offset: F26Dot6,
    pub y_offset: F26Dot6,
    pub lcd_filter: u32,
    pub render_mode: u32,
}

/// How far an outline that begins at `min` moves along one axis so that its
/// first pixel becomes pixel zero, and it lies `subpixel_offset` further in it.
pub open spec fn origin_offset(min: int, subpixel_offset: int) -> int {
    subpixel_offset - pixel_floor(min + subpixel_offset)
}

/// The sums that [`plan`] forms are within 64 bits.
pub open spec fn plan_fits(control_box: BBox, subpixel_offset: F26Dot6) -> bool {
    &&& i64::MIN <= control_box.x_min + subpixel_offset <= i64::MAX
    &&& i64::MIN <= origin_offset(control_box.x_min as int, subpixel_offset as int) <= i64::MAX
    &&& origin_offset(control_box.y_min as int, 0) <= i64::MAX
}

/// Tells whether [`plan`] can be asked for this outline.
pub fn can_plan(control_box: &BBox, subpixel_offset: F26Dot6) -> (r: bool)
    ensures
        r == plan_fits(*control_box, subpixel_offset),
{
    match control_box.x_min.checked_add(subpixel_offset) {
        None => false,
        Some(x) => {
            let x_floor: i64 = floor(x);
            let y_floor: i64 = floor(control_box.y_min);
            subpixel_offset.checked_sub(x_floor).is_some() && y_floor != i64::MIN
        },
    }
}

/// Plans the rendering of an outline whose control points lie in `control_box`:
/// the outline moves to the origin, taking the subpixel position into account,
/// and is rendered for an LCD with the default filter.
pub fn plan(control_box: &BBox, subpixel_offset: F26Dot6) -> (r: RasterPlan)
    requires
        plan_fits(*control_box, subpixel_offset),
    ensures
        r.x_offset == origin_offset(control_box.x_min as int, subpixel_offset as int),
        r.y_offset == origin_offset(control_box.y_min as int, 0),
        r.lcd_filter == LCD_FILTER_DEFAULT,
        r.render_mode == RENDER_MODE_LCD,
{
    let subpixel_x: i64 = subpixel_offset;
    let subpixel_y: i64 = 0;
    RasterPlan {
        x_offset: subpixel_x - floor(control_box.x_min + subpixel_x),
        y_offset: subpixel_y - floor(control_box.y_min + subpixel_y),
        lcd_filter: lcd_filter_default(),
        render_mode: render_mode_lcd(),
    }
}

/// What the slot of a face holds after rendering: the bitmap, the place of its
/// upper left corner, and the advance of the glyph.
///
/// The corner lies `left` pixels right of the origin and `top` pixels above it.
/// `width` counts the bytes of a row that hold subpixels, `pitch` the bytes from
/// one row to the next, and `buffer` is the memory of the bitmap.
pub struct RenderedGlyph<'a> {
    pub pixel_mode: u32,
    pub width: u32,
    pub rows: u32,
    pub pitch: i32,
    pub buffer: &'a [u8],
    pub left: i32,
    pub top: i32,
    pub hori_advance: F26Dot6,
}

impl<'a> RenderedGlyph<'a> {
    /// The size of the image in pixels.
    pub open spec fn pixel_size(&self) -> Size {
        Size { width: self.width / 3, height: self.rows }
    }

    /// The bitmap is one that can be read as an LCD bitmap, three bytes to a pixel:
    /// a row is as long as its pixels, the buffer holds all rows, and the pixels
    /// can be counted in 32 bits.
    pub open spec fn readable(&self) -> bool {
        &&& self.rows == 0 || 3 * self.pixel_size().width <= self.pitch
        &&& self.buffer@.len() == self.pitch * self.rows
        &&& self.pixel_size().width * self.pixel_size().height <= u32::MAX
    }

    /// The bitmap has a pixel in column `x` of row `y`, counted from the upper left.
    pub open spec fn covers(&self, x: int, y: int) -> bool {
        &&& 0 <= x < self.pixel_size().width
        &&& 0 <= y < self.pixel_size().height
    }

    /// The pixel in column `x` of row `y`: fully opaque, and the three subpixels
    /// inverted, the first of them highest. Where the bitmap has no pixel, nothing is
    /// covered, and all subpixels are zero.
    pub open spec fn pixel(&self, x: int, y: int) -> u32 {
        if self.covers(x, y) {
            let first = y * self.pitch + x * 3;
            inverted(self.buffer@[first], self.buffer@[first + 1], self.buffer@[first + 2])
        } else {
            inverted(0, 0, 0)
        }
    }

    /// All pixels of the bitmap, row by row.
    pub open spec fn image(&self) -> Seq<u32> {
        let size = self.pixel_size();
        Seq::new(
            (size.width * size.height) as nat,
            |i: int| self.pixel(i % (size.width as int), i / (size.width as int)),
        )
    }

    /// The column of the bitmap that lies in column `x` of an image with this margin.
    ///
    /// The margin lies left of pixel zero, in which the moved outline begins, and the
    /// bitmap `left` pixels right of its edge.
    pub open spec fn bitmap_column(&self, x: int, margin: int) -> int {
        x - margin - self.left
    }

    /// The row of the bitmap that lies in row `y` of an image of this height with this
    /// margin.
    ///
    /// The margin lies below pixel zero, in which the moved outline begins, and the
    /// upper edge of the bitmap `top` pixels above its lower edge.
    pub open spec fn bitmap_row(&self, y: int, height: int, margin: int) -> int {
        y - (height - margin - self.top)
    }

    /// The pixels of an image of this size with this margin around the outline, row by
    /// row: the bitmap's where the bitmap has one, and uncovered ones elsewhere. What
    /// the bitmap has beyond the image is left out.
    pub open spec fn framed(&self, size: Size, margin: int) -> Seq<u32> {
        Seq::new(
            (size.width * size.height) as nat,
            |i: int|
                self.pixel(
                    self.bitmap_column(i % (size.width as int), margin),
                    self.bitmap_row(i / (size.width as int), size.height as int, margin),
                ),
        )
    }

    /// Tells whether the bitmap is [`readable`](RenderedGlyph::readable), or is no
    /// LCD bitmap, which nothing reads.
    pub fn is_readable(&self) -> (r: bool)
        ensures
            r == (self.pixel_mode == PIXEL_MODE_LCD ==> self.readable()),
    {
        if self.pixel_mode != pixel_mode_lcd() {
            return true;
        }
        let width: u64 = (self.width / 3) as u64;
        let rows: u64 = self.rows as u64;
        assert(width * rows <= 0xffff_ffff * 0xffff_ffff) by (nonlinear_arith)
            requires
                0 <= width <= 0xffff_ffff,
                0 <= rows <= 0xffff_ffff,
        ;
        let len: usize = self.buffer.len();
        let holds_all_rows: bool = match buffer_len(self.pitch, self.rows) {
            None => false,
            Some(needed) => len == needed,
        };
        (self.rows == 0 || 3 * width as i64 <= self.pitch as i64) && holds_all_rows && width * rows
            <= u32::MAX as u64
    }
}

/// Three subpixels, inverted, as a pixel: alpha in the highest byte, then the
/// first, the second and the third subpixel.
pub open spec fn inverted(first: u8, second: u8, third: u8) -> u32 {
    ((255 - third) + (255 - second) * 0x100 + (255 - first) * 0x1_0000 + 0xff * 0x100_0000) as u32
}

/// The number of bytes in `rows` rows that lie `pitch` bytes apart, if the rows
/// run downwards and the number is within `usize`.
pub fn buffer_len(pitch: i32, rows: u32) -> (r: Option<usize>)
    ensures
        match r {
            Some(len) => len == pitch * rows,
            None => pitch * rows < 0 || pitch * rows > usize::MAX,
        },
{
    if rows == 0 {
        return Some(0);
    }
    if pitch < 0 {
        assert(pitch * rows < 0) by (nonlinear_arith)
            requires
                pitch < 0,
                rows > 0,
        ;
        return None;
    }
    let stride: usize = pitch as usize;
    stride.checked_mul(rows as usize)
}

/// Unpacks an LCD bitmap, three subpixels to a pixel. Bytes of a row that make no
/// whole pixel are left out.
pub fn unpack(rendered: &RenderedGlyph) -> (r: Vec<u32>)
    requires
        rendered.readable(),
    ensures
        r@ == rendered.image(),
{
    let pixel_size: Size = Size { width: rendered.width / 3, height: rendered.rows };
    let src_stride: usize = if rendered.rows == 0 { 0 } else { rendered.pitch as usize };
    let dest_stride: usize = pixel_size.width as usize;
    let dest_area: usize = area(pixel_size) as usize;
    let height: usize = pixel_size.height as usize;
    let src_pixels: &[u8] = rendered.buffer;
    let src_area: usize = src_pixels.len();
    let mut dest_pixels: Vec<u32> = vec![0; dest_area];

    let mut y: usize = 0;
    while y < height
        invariant
            rendered.readable(),
            pixel_size == rendered.pixel_size(),
            height == pixel_size.height,
            dest_stride == pixel_size.width,
            src_stride == (if rendered.rows == 0 { 0 } else { rendered.pitch as int }),
            src_pixels@ == rendered.buffer@,
            src_area == src_pixels@.len(),
            dest_area == dest_stride * height,
            dest_pixels@.len() == dest_area,
            y <= height,
            forall|i: int| 0 <= i < y * dest_stride ==> dest_pixels@[i] == rendered.image()[i],
        decreases height - y,
    {
        let mut x: usize = 0;
        while x < dest_stride
            invariant
                rendered.readable(),
                pixel_size == rendered.pixel_size(),
                height == pixel_size.height,
                dest_stride == pixel_size.width,
                src_stride == rendered.pitch,
                src_pixels@ == rendered.buffer@,
                src_area == src_pixels@.len(),
                dest_area == dest_stride * height,
                dest_pixels@.len() == dest_area,
                y < height,
                x <= dest_stride,
                forall|i: int| 0 <= i < y * dest_stride + x ==> dest_pixels@[i] == rendered.image()[i],
            decreases dest_stride - x,
        {
            proof {
                lemma_within(y as int, x as int, dest_stride as int, 1, dest_stride as int, height as int);
                lemma_within(y as int, x as int, dest_stride as int, 3, src_stride as int, height as int);
                lemma_fundamental_div_mod_converse(
                    y * dest_stride + x,
                    dest_stride as int,
                    y as int,
                    x as int,
                );
            }
            let src: usize = y * src_stride + x * 3;
            let dest: usize = y * dest_stride + x;
            let first: u8 = src_pixels[src];
            let second: u8 = src_pixels[src + 1];
            let third: u8 = src_pixels[src + 2];
            let pixel: u32 = ((255 - third) as u32) | (((255 - second) as u32) << 8) | (((255
                - first) as u32) << 16) | (0xff << 24);
            proof {
                lemma_packed((255 - third) as u8, (255 - second) as u8, (255 - first) as u8);
            }
            dest_pixels.set(dest, pixel);
            x = x + 1;
        }
        assert((y + 1) * dest_stride == y * dest_stride + dest_stride) by (nonlinear_arith);
        y = y + 1;
    }
    assert(height * dest_stride == dest_stride * height) by (nonlinear_arith);
    assert(dest_pixels@ =~= rendered.image());
    dest_pixels
}

/// Places an LCD bitmap in an image of the given size, as
/// [`framed`](RenderedGlyph::framed) says.
pub fn frame(rendered: &RenderedGlyph, size: Size, margin: i32) -> (r: Vec<u32>)
    requires
        rendered.readable(),
        size.width * size.height <= u32::MAX,
    ensures
        r@ == rendered.framed(size, margin as int),
{
    let bitmap: Vec<u32> = unpack(rendered);
    let bitmap_width: i64 = (rendered.width / 3) as i64;
    let bitmap_height: i64 = rendered.rows as i64;
    let dest_area: usize = area(size) as usize;
    let dest_stride: usize = size.width as usize;
    let height: usize = size.height as usize;
    // White is what no coverage leaves.
    let mut dest_pixels: Vec<u32> = vec![0xffff_ffff; dest_area];

    let mut y: usize = 0;
    while y < height
        invariant
            rendered.readable(),
            bitmap@ == rendered.image(),
            bitmap_width == rendered.pixel_size().width,
            bitmap_height == rendered.pixel_size().height,
            height == size.height,
            dest_stride == size.width,
            dest_area == dest_stride * height,
            dest_pixels@.len() == dest_area,
            y <= height,
            forall|i: int|
                0 <= i < y * dest_stride ==> dest_pixels@[i] == rendered.framed(
                    size,
                    margin as int,
                )[i],
            forall|i: int| y * dest_stride <= i < dest_area ==> dest_pixels@[i] == 0xffff_ffff,
        decreases height - y,
    {
        let row: i64 = y as i64 - (height as i64 - margin as i64 - rendered.top as i64);
        let mut x: usize = 0;
        while x < dest_stride
            invariant
                rendered.readable(),
                bitmap@ == rendered.image(),
                bitmap_width == rendered.pixel_size().width,
                bitmap_height == rendered.pixel_size().height,
                height == size.height,
                dest_stride == size.width,
                dest_area == dest_stride * height,
                dest_pixels@.len() == dest_area,
                y < height,
                x <= dest_stride,
                row == rendered.bitmap_row(y as int, height as int, margin as int),
                forall|i: int|
                    0 <= i < y * dest_stride + x ==> dest_pixels@[i] == rendered.framed(
                        size,
                        margin as int,
                    )[i],
                forall|i: int|
                    y * dest_stride + x <= i < dest_area ==> dest_pixels@[i] == 0xffff_ffff,
            decreases dest_stride - x,
        {
            proof {
                lemma_within(y as int, x as int, dest_stride as int, 1, dest_stride as int, height as int);
                lemma_fundamental_div_mod_converse(
                    y * dest_stride + x,
                    dest_stride as int,
                    y as int,
                    x as int,
                );
            }
            let column: i64 = x as i64 - margin as i64 - rendered.left as i64;
            if 0 <= column && column < bitmap_width && 0 <= row && row < bitmap_height {
                proof {
                    lemma_within(
                        row as int,
                        column as int,
                        bitmap_width as int,
                        1,
                        bitmap_width as int,
                        bitmap_height as int,
                    );
                    lemma_fundamental_div_mod_converse(
                        row * bitmap_width + column,
                        bitmap_width as int,
                        row as int,
                        column as int,
                    );
                }
                let src: usize = row as usize * bitmap_width as usize + column as usize;
                dest_pixels.set(y * dest_stride + x, bitmap[src]);
            }
            x = x + 1;
        }
        assert((y + 1) * dest_stride == y * dest_stride + dest_stride) by (nonlinear_arith);
        y = y + 1;
    }
    assert(height * dest_stride == dest_stride * height) by (nonlinear_arith);
    assert(dest_pixels@ =~= rendered.framed(size, margin as int));
    dest_pixels
}

/// A cell of `step` bytes in column `x` of row `y` lies within `height` rows of
/// `stride` bytes, where a row has room for `columns` cells.
pub(crate) proof fn lemma_within(y: int, x: int, columns: int, step: int, stride: int, height: int)
    requires
        0 <= y < height,
        0 <= x < columns,
        0 < step,
        columns * step <= stride,
    ensures
        0 <= y * stride,
        y * stride + x * step + step <= stride * height,
{
    assert(0 <= y * stride) by (nonlinear_arith)
        requires
            0 <= y,
            0 < step,
            0 < columns,
            columns * step <= stride,
    ;
    assert(x * step + step <= columns * step) by (nonlinear_arith)
        requires
            x + 1 <= columns,
            0 < step,
    ;
    assert(y * stride + stride <= stride * height) by (nonlinear_arith)
        requires
            y + 1 <= height,
            0 <= stride,
    ;
}

/// Four bytes side by side are the sum of their places.
proof fn lemma_packed(a: u8, b: u8, c: u8)
    ensures
        (a as u32) | ((b as u32) << 8) | ((c as u32) << 16) | (0xffu32 << 24) == a + b * 0x100 + c
            * 0x1_0000 + 0xff * 0x100_0000,
{
    assert((a as u32) | ((b as u32) << 8) | ((c as u32) << 16) | (0xffu32 << 24) == a + b * 0x100
        + c * 0x1_0000 + 0xff * 0x100_0000) by (bit_vector);
}

/// The order in which the bytes of a word lie in memory.
#[derive(Clone, Copy, Debug, PartialEq, Eq, Structural)]
pub enum ByteOrder {
    /// The lowest byte comes first.
    LittleEndian,
    /// The highest byte comes first.
    BigEndian,
}

/// Byte `place` of `word`, counted from the lowest.
pub open spec fn byte_of(word: u32, place: int) -> u8 {
    if place == 0 {
        (word % 0x100) as u8
    } else if place == 1 {
        (word / 0x100 % 0x100) as u8
    } else if place == 2 {
        (word / 0x1_0000 % 0x100) as u8
    } else {
        (word / 0x100_0000) as u8
    }
}

/// Byte `index` of `word` as it lies in memory.
pub open spec fn byte_in_order(word: u32, index: int, order: ByteOrder) -> u8 {
    byte_of(
        word,
        match order {
            ByteOrder::LittleEndian => index,
            ByteOrder::BigEndian => 3 - index,
        },
    )
}

/// The memory of `words`.
pub open spec fn bytes_in_order(words: Seq<u32>, order: ByteOrder) -> Seq<u8> {
    Seq::new((words.len() * 4) as nat, |k: int| byte_in_order(words[k / 4], k % 4, order))
}

/// The memory of a word on this machine.
///
/// Trusted: `u32::to_ne_bytes` gives the four bytes of the word in the machine's
/// order, lowest first or highest first. Which of the two it is depends on the
/// machine and is left open.
#[verifier::external_body]
fn native_bytes(word: u32) -> (r: [u8; 4])
    ensures
        exists|order: ByteOrder|
            #![trigger bytes_in_order(seq![word], order)]
            r@ == bytes_in_order(seq![word], order),
{
    word.to_ne_bytes()
}

/// The order that the memory of the number one shows.
fn byte_order_of(memory_of_one: &[u8; 4]) -> (r: ByteOrder)
    requires
        exists|order: ByteOrder|
            #![trigger bytes_in_order(seq![1], order)]
            memory_of_one@ == bytes_in_order(seq![1], order),
    ensures
        memory_of_one@ == bytes_in_order(seq![1], r),
{
    proof {
        let order = choose|order: ByteOrder|
            #![trigger bytes_in_order(seq![1], order)]
            memory_of_one@ == bytes_in_order(seq![1], order);
        assert(memory_of_one@[0] == bytes_in_order(seq![1], order)[0]);
    }
    if memory_of_one[0] == 1 {
        ByteOrder::LittleEndian
    } else {
        ByteOrder::BigEndian
    }
}

/// The machine lays words out in this order: the memory of the number one, as the
/// machine gives it, begins or ends with the one.
pub closed spec fn is_machine_order(order: ByteOrder) -> bool {
    exists|memory: [u8; 4]|
        {
            &&& #[trigger] call_ensures(native_bytes, (1u32,), memory)
            &&& memory@ == match order {
                ByteOrder::LittleEndian => seq![1u8, 0u8, 0u8, 0u8],
                ByteOrder::BigEndian => seq![0u8, 0u8, 0u8, 1u8],
            }
        }
}

/// The byte order of the machine, as it was found.
pub struct MachineOrder {
    order: ByteOrder,
}

impl MachineOrder {
    #[verifier::type_invariant]
    spec fn found(self) -> bool {
        is_machine_order(self.order)
    }

    /// The order.
    pub closed spec fn spec_order(&self) -> ByteOrder {
        self.order
    }

    /// Finds the byte order of the machine.
    pub fn detect() -> (r: MachineOrder)
        ensures
            is_machine_order(r.spec_order()),
    {
        let memory: [u8; 4] = native_bytes(1);
        let order: ByteOrder = byte_order_of(&memory);
        proof {
            assert(memory@ =~= match order {
                ByteOrder::LittleEndian => seq![1u8, 0u8, 0u8, 0u8],
                ByteOrder::BigEndian => seq![0u8, 0u8, 0u8, 1u8],
            });
        }
        MachineOrder { order: order }
    }

    /// Returns the order.
    pub fn order(&self) -> (r: ByteOrder)
        ensures
            r == self.spec_order(),
            is_machine_order(r),
    {
        proof {
            use_type_invariant(self);
        }
        self.order
    }
}

/// Lays the words of `input` out as bytes in the given order.
pub fn convert_vec_u32_to_vec_u8(input: Vec<u32>, order: ByteOrder) -> (r: Vec<u8>)
    ensures
        r@ == bytes_in_order(input@, order),
{
    let mut bytes: Vec<u8> = Vec::new();
    let mut i: usize = 0;
    while i < input.len()
        invariant
            i <= input@.len(),
            bytes@ == bytes_in_order(input@.take(i as int), order),
        decreases input@.len() - i,
    {
        let word: u32 = input[i];
        let b0: u8 = (word & 0xff) as u8;
        let b1: u8 = ((word >> 8) & 0xff) as u8;
        let b2: u8 = ((word >> 16) & 0xff) as u8;
        let b3: u8 = (word >> 24) as u8;
        proof {
            lemma_bytes(word);
        }
        match order {
            ByteOrder::LittleEndian => {
                bytes.push(b0);
                bytes.push(b1);
                bytes.push(b2);
                bytes.push(b3);
            },
            ByteOrder::BigEndian => {
                bytes.push(b3);
                bytes.push(b2);
                bytes.push(b1);
                bytes.push(b0);
            },
        }
        assert(bytes@ =~= bytes_in_order(input@.take(i + 1), order));
        i = i + 1;
    }
    assert(input@.take(i as int) =~= input@);
    bytes
}

/// Shifting and masking picks the bytes of a word.
proof fn lemma_bytes(word: u32)
    ensures
        (word & 0xff) as u8 == byte_of(word, 0),
        ((word >> 8) & 0xff) as u8 == byte_of(word, 1),
        ((word >> 16) & 0xff) as u8 == byte_of(word, 2),
        (word >> 24) as u8 == byte_of(word, 3),
{
    assert(word & 0xff == word % 0x100) by (bit_vector);
    assert((word >> 8) & 0xff == word / 0x100 % 0x100) by (bit_vector);
    assert((word >> 16) & 0xff == word / 0x1_0000 % 0x100) by (bit_vector);
    assert(word >> 24 == word / 0x100_0000) by (bit_vector);
}

impl GlyphImage {
    /// The pixels are those of the bitmap that the rasterizer left, placed in an image
    /// of these dimensions with this margin around the outline, and the bytes of a
    /// pixel are in the given order.
    pub open spec fn shows(self, rendered: RenderedGlyph, margin: int, order: ByteOrder) -> bool {
        self.pixels@ == bytes_in_order(rendered.framed(self.dimensions.size, margin), order)
    }
}

/// Makes the image of a glyph that lay in its slot as an outline, from the bitmap
/// that the rasterizer left, with the bytes of a pixel in the given order. Only an
/// LCD bitmap makes an image.
///
/// The image has the extents of the outline: the raw extents if `exact` is true, and
/// extents that account for stem darkening otherwise. Its advance is that of the
/// rendered glyph.
pub fn glyph_image<FK, O>(
    font_instance: &FontInstance<FK>,
    slot: &GlyphSlot<O>,
    rendered: &RenderedGlyph,
    exact: bool,
    order: ByteOrder,
) -> (r: Result<GlyphImage, ()>)
    requires
        rendered.pixel_mode == PIXEL_MODE_LCD ==> {
            &&& rendered.readable()
            &&& image_fits(slot.control_box, margin(*font_instance, exact))
        },
    ensures
        r is Ok <==> rendered.pixel_mode == PIXEL_MODE_LCD,
        r matches Ok(image) ==> {
            &&& image.dimensions.measure(
                slot.control_box,
                margin(*font_instance, exact),
                rendered.hori_advance,
            )
            &&& image.shows(*rendered, margin(*font_instance, exact), order)
        },
{
    if rendered.pixel_mode != pixel_mode_lcd() {
        return Err(());
    }
    let mut dimensions: GlyphDimensions = measure_outline(font_instance, slot, exact);
    dimensions.advance = rendered.hori_advance;
    let pixels: Vec<u32> = frame(
        rendered,
        dimensions.size,
        outline_margin(font_instance, exact),
    );
    Ok(GlyphImage { dimensions: dimensions, pixels: convert_vec_u32_to_vec_u8(pixels, order) })
}

} // verus!
