//! The pixel buffer of the software renderer.
//!
//! A frame is a flat array of bytes, four per pixel (red, green, blue,
//! alpha), one row after the other. The pixel in column `x` of row `y` starts
//! at byte `4 * (x + y * width)`.

use vstd::prelude::*;
use crate::color::RGBA;
use crate::config::ConfigError;

verus! {

/// The index of the first byte of the pixel in column `x` of row `y`, in a
/// frame that is `width` pixels wide.
pub open spec fn pixel_offset(width: int, x: int, y: int) -> int {
    4 * (x + y * width)
}

/// The color that `bytes` holds for the pixel in column `x` of row `y`.
pub open spec fn pixel_in(bytes: Seq<u8>, width: int, x: int, y: int) -> RGBA {
    let i = pixel_offset(width, x, y);
    RGBA(bytes[i], bytes[i + 1], bytes[i + 2], bytes[i + 3])
}

/// An RGBA frame of `width` by `height` pixels.
pub struct PixelBuffer {
    width: u32,
    height: u32,
    data: Vec<u8>,
}

impl View for PixelBuffer {
    type V = Seq<u8>;

    /// The frame's bytes, in the order in which the display takes them.
    closed spec fn view(&self) -> Seq<u8> {
        self.data@
    }
}

impl PixelBuffer {
    /// The number of columns.
    pub closed spec fn spec_width(&self) -> int {
        self.width as int
    }

    /// The number of rows.
    pub closed spec fn spec_height(&self) -> int {
        self.height as int
    }

    /// A frame has at least one pixel and exactly four bytes for each.
    pub open spec fn wf(&self) -> bool {
        &&& 0 < self.spec_width() <= u32::MAX
        &&& 0 < self.spec_height() <= u32::MAX
        &&& self@.len() == 4 * self.spec_width() * self.spec_height()
    }

    /// The color of the pixel in column `x` of row `y`.
    pub open spec fn pixel_at(&self, x: int, y: int) -> RGBA {
        pixel_in(self@, self.spec_width(), x, y)
    }

    /// Whether every pixel holds a color that `shade` can return for its
    /// coordinates.
    pub open spec fn shaded_by<F: Fn(u32, u32) -> RGBA>(&self, shade: F) -> bool {
        forall|x: u32, y: u32|
            x < self.spec_width() && y < self.spec_height() ==> call_ensures(
                shade,
                (x, y),
                #[trigger] self.pixel_at(x as int, y as int),
            )
    }

    /// Allocates a frame of `width` by `height` pixels, all bytes zero.
    ///
    /// A frame without columns or without rows is refused, and so is one
    /// whose byte count does not fit in `usize`.
    pub fn new(width: u32, height: u32) -> (r: Result<PixelBuffer, ConfigError>)
        ensures
            r is Ok <==> width > 0 && height > 0 && 4 * width * height <= usize::MAX,
            r matches Ok(b) ==> b.wf() && b.spec_width() == width && b.spec_height() == height
                && b@ == Seq::new((4 * width * height) as nat, |i: int| 0u8),
            r matches Err(e) ==> {
                &&& e == ConfigError::ZeroWidth <==> width == 0
                &&& e == ConfigError::ZeroHeight <==> width > 0 && height == 0
                &&& e == ConfigError::FrameTooLarge <==> width > 0 && height > 0
            },
    {
        if width == 0 {
            return Err(ConfigError::ZeroWidth);
        }
        if height == 0 {
            return Err(ConfigError::ZeroHeight);
        }
        assert(width * height <= 0xffff_ffff * 0xffff_ffff) by (nonlinear_arith)
            requires
                width <= 0xffff_ffff,
                height <= 0xffff_ffff,
        ;
        let pixels: u64 = (width as u64) * (height as u64);
        let limit: u64 = (usize::MAX as u64) / 4;
        if pixels > limit {
            assert(4 * width * height > usize::MAX) by (nonlinear_arith)
                requires
                    width * height == pixels,
                    pixels > limit,
                    limit == (usize::MAX as int) / 4,
            ;
            return Err(ConfigError::FrameTooLarge);
        }
        assert(4 * width * height == 4 * pixels && 4 * pixels <= usize::MAX)
            by (nonlinear_arith)
            requires
                width * height == pixels,
                pixels <= limit,
                limit == (usize::MAX as int) / 4,
        ;
        let len: usize = (pixels * 4) as usize;
        let data: Vec<u8> = vec![0u8; len];
        let buffer = PixelBuffer { width, height, data };
        assert(buffer@ =~= Seq::new((4 * width * height) as nat, |i: int| 0u8));
        Ok(buffer)
    }

    /// Writes `color` into the pixel in column `x` of row `y` and leaves
    /// every other pixel as it was.
    pub fn set_pixel(&mut self, x: u32, y: u32, color: RGBA)
        requires
            old(self).wf(),
            x < old(self).spec_width(),
            y < old(self).spec_height(),
        ensures
            final(self).wf(),
            final(self).spec_width() == old(self).spec_width(),
            final(self).spec_height() == old(self).spec_height(),
            final(self)@ == ({
                let i = pixel_offset(old(self).spec_width(), x as int, y as int);
                old(self)@.update(i, color.0).update(i + 1, color.1).update(i + 2, color.2).update(
                    i + 3,
                    color.3,
                )
            }),
            final(self).pixel_at(x as int, y as int) == color,
            forall|u: int, v: int|
                0 <= u < old(self).spec_width() && 0 <= v < old(self).spec_height() && (u != x
                    || v != y) ==> #[trigger] final(self).pixel_at(u, v) == old(self).pixel_at(
                    u,
                    v,
                ),
    {
        proof {
            lemma_pixel_in_frame(self.width as int, self.height as int, x as int, y as int);
            assert(self.data.len() <= usize::MAX && self.data.len() == self@.len());
            assert(0 <= y * self.width) by (nonlinear_arith);
        }
        let row: u64 = (y as u64) * (self.width as u64);
        let start: usize = ((row + (x as u64)) * 4) as usize;
        self.data.set(start, color.0);
        self.data.set(start + 1, color.1);
        self.data.set(start + 2, color.2);
        self.data.set(start + 3, color.3);
        proof {
            assert forall|u: int, v: int|
                0 <= u < old(self).spec_width() && 0 <= v < old(self).spec_height() && (u != x
                    || v != y) implies #[trigger] self.pixel_at(u, v) == old(self).pixel_at(
                u,
                v,
            ) by {
                lemma_pixel_in_frame(self.width as int, self.height as int, u, v);
                lemma_pixels_apart(self.width as int, x as int, y as int, u, v);
            }
        }
    }

    /// Renders one frame: every pixel, row by row, is overwritten with the
    /// color that `shade` returns for its column and row.
    pub fn draw<F: Fn(u32, u32) -> RGBA>(&mut self, shade: F)
        requires
            old(self).wf(),
            forall|x: u32, y: u32|
                x < old(self).spec_width() && y < old(self).spec_height() ==> call_requires(
                    shade,
                    (x, y),
                ),
        ensures
            final(self).wf(),
            final(self).spec_width() == old(self).spec_width(),
            final(self).spec_height() == old(self).spec_height(),
            final(self).shaded_by(shade),
    {
        let width = self.width;
        let height = self.height;
        let mut y: u32 = 0;
        while y < height
            invariant
                self.wf(),
                self.spec_width() == width,
                self.spec_height() == height,
                y <= height,
                forall|u: u32, v: u32|
                    u < width && v < height ==> call_requires(shade, (u, v)),
                forall|u: u32, v: u32|
                    u < width && v < y ==> call_ensures(
                        shade,
                        (u, v),
                        #[trigger] self.pixel_at(u as int, v as int),
                    ),
            decreases height - y,
        {
            let mut x: u32 = 0;
            while x < width
                invariant
                    self.wf(),
                    self.spec_width() == width,
                    self.spec_height() == height,
                    y < height,
                    x <= width,
                    forall|u: u32, v: u32|
                        u < width && v < height ==> call_requires(shade, (u, v)),
                    forall|u: u32, v: u32|
                        u < width && (v < y || (v == y && u < x)) ==> call_ensures(
                            shade,
                            (u, v),
                            #[trigger] self.pixel_at(u as int, v as int),
                        ),
                decreases width - x,
            {
                let color = shade(x, y);
                self.set_pixel(x, y, color);
                x = x + 1;
            }
            y = y + 1;
        }
    }

    /// The number of columns.
    pub fn width(&self) -> (w: u32)
        ensures
            w == self.spec_width(),
    {
        self.width
    }

    /// The number of rows.
    pub fn height(&self) -> (h: u32)
        ensures
            h == self.spec_height(),
    {
        self.height
    }

    /// The frame's bytes, ready to be handed to the display in one piece.
    pub fn data(&self) -> (bytes: &Vec<u8>)
        ensures
            bytes@ == self@,
    {
        &self.data
    }
}

/// The four bytes of a pixel inside the frame lie inside the frame's bytes.
pub proof fn lemma_pixel_in_frame(width: int, height: int, x: int, y: int)
    requires
        0 <= x < width,
        0 <= y < height,
    ensures
        0 <= pixel_offset(width, x, y),
        pixel_offset(width, x, y) + 4 <= 4 * width * height,
        pixel_offset(width, x, y) == 4 * (y * width + x),
{
    assert(y * width >= 0 && (y + 1) * width <= height * width) by (nonlinear_arith)
        requires
            0 <= y < height,
            0 < width,
    ;
    assert((y + 1) * width == y * width + width) by (nonlinear_arith);
    assert(4 * width * height == 4 * (height * width)) by (nonlinear_arith);
}

/// Two different pixels of one frame share no byte.
pub proof fn lemma_pixels_apart(width: int, x: int, y: int, u: int, v: int)
    requires
        0 <= x < width,
        0 <= u < width,
        0 <= y,
        0 <= v,
        x != u || y != v,
    ensures
        pixel_offset(width, x, y) + 4 <= pixel_offset(width, u, v) || pixel_offset(width, u, v)
            + 4 <= pixel_offset(width, x, y),
{
    if y < v {
        assert((y + 1) * width <= v * width) by (nonlinear_arith)
            requires
                y + 1 <= v,
                0 < width,
        ;
        assert((y + 1) * width == y * width + width) by (nonlinear_arith);
    } else if v < y {
        assert((v + 1) * width <= y * width) by (nonlinear_arith)
            requires
                v + 1 <= y,
                0 < width,
        ;
        assert((v + 1) * width == v * width + width) by (nonlinear_arith);
    }
}

/// Every byte of a frame belongs to a pixel inside the frame: byte `i` is
/// byte `i % 4` of the pixel in column `(i / 4) % width` of row
/// `(i / 4) / width`.
pub proof fn lemma_byte_in_pixel(width: int, height: int, i: int)
    requires
        0 < width,
        0 < height,
        0 <= i < 4 * width * height,
    ensures
        0 <= (i / 4) % width < width,
        0 <= (i / 4) / width < height,
        i == pixel_offset(width, (i / 4) % width, (i / 4) / width) + i % 4,
        0 <= i % 4 < 4,
{
    let p = i / 4;
    assert(4 * width * height == 4 * (width * height)) by (nonlinear_arith);
    assert(0 <= p < width * height);
    vstd::arithmetic::div_mod::lemma_fundamental_div_mod(p, width);
    vstd::arithmetic::div_mod::lemma_mod_bound(p, width);
    vstd::arithmetic::div_mod::lemma_div_pos_is_pos(p, width);
    let row = p / width;
    assert(row < height) by (nonlinear_arith)
        requires
            p == width * row + p % width,
            0 <= p % width,
            p < width * height,
            0 < width,
    ;
    assert(width * row == row * width) by (nonlinear_arith);
}

/// Rendering depends on nothing but the shader: two frames of one size that
/// were drawn with a shader whose result is fixed by the pixel's coordinates
/// hold the same bytes, whatever they held before.
pub proof fn lemma_draw_deterministic<F: Fn(u32, u32) -> RGBA>(
    a: PixelBuffer,
    b: PixelBuffer,
    shade: F,
)
    requires
        a.wf(),
        b.wf(),
        a.spec_width() == b.spec_width(),
        a.spec_height() == b.spec_height(),
        a.shaded_by(shade),
        b.shaded_by(shade),
        forall|x: u32, y: u32, c: RGBA, d: RGBA|
            call_ensures(shade, (x, y), c) && call_ensures(shade, (x, y), d) ==> c == d,
    ensures
        a@ == b@,
{
    let width = a.spec_width();
    let height = a.spec_height();
    assert(a@.len() == b@.len());
    assert forall|i: int| 0 <= i < a@.len() implies a@[i] == b@[i] by {
        lemma_byte_in_pixel(width, height, i);
        let x = ((i / 4) % width) as u32;
        let y = ((i / 4) / width) as u32;
        assert(call_ensures(shade, (x, y), a.pixel_at(x as int, y as int)));
        assert(call_ensures(shade, (x, y), b.pixel_at(x as int, y as int)));
        assert(a.pixel_at(x as int, y as int) == b.pixel_at(x as int, y as int));
    }
    assert(a@ =~= b@);
}

} // verus!
