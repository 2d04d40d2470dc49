//! The pixel canvas: a fixed-size RGBA bitmap with pixel and rectangle writes.
use vstd::prelude::*;
use crate::color::Color;
use crate::raster::{
    ImageStore, image_data, image_width, image_height, in_grid, pixel_in, filled_image, width_of,
    height_of, read_pixel, write_pixel, replace_region, raw_of,
};

verus! {

/// What a canvas holds: its size and its row-major RGBA bytes.
pub struct CanvasModel {
    pub width: nat,
    pub height: nat,
    pub bytes: Seq<u8>,
}

impl CanvasModel {
    pub open spec fn contains(self, x: int, y: int) -> bool {
        in_grid(self.width as int, self.height as int, x, y)
    }

    pub open spec fn pixel(self, x: int, y: int) -> Color {
        pixel_in(self.bytes, self.width as int, x, y)
    }

    /// Every pixel of the canvas is `c`.
    pub open spec fn all_pixels(self, c: Color) -> bool {
        forall|x: int, y: int| self.contains(x, y) ==> #[trigger] self.pixel(x, y) == c
    }
}

/// Clamps `v` into `[lo, hi]`.
pub open spec fn clamp_to(v: int, lo: int, hi: int) -> int {
    if v < lo {
        lo
    } else if v > hi {
        hi
    } else {
        v
    }
}

/// A fixed-size RGBA bitmap, held in an image of the `image` crate.
pub struct PixelCanvas {
    store: ImageStore,
}

impl View for PixelCanvas {
    type V = CanvasModel;

    closed spec fn view(&self) -> CanvasModel {
        CanvasModel {
            width: image_width(self.store) as nat,
            height: image_height(self.store) as nat,
            bytes: image_data(self.store),
        }
    }
}

proof fn lemma_area_monotone(a: int, b: int, w: int, h: int)
    requires
        0 <= a <= w,
        0 <= b <= h,
    ensures
        4 * a * b <= 4 * w * h,
{
    assert(4 * a * b <= 4 * w * h) by (nonlinear_arith)
        requires
            0 <= a <= w,
            0 <= b <= h,
    ;
}

/// A canvas whose every pixel is `c` holds, in its raw buffer, the channels
/// of `c` over and over: byte `i` is channel `i % 4` of `c`.
pub proof fn uniform_canvas_bytes(canvas: &PixelCanvas, c: Color)
    requires
        canvas.wf(),
        canvas@.all_pixels(c),
    ensures
        forall|i: int| 0 <= i < canvas@.bytes.len() ==> #[trigger] canvas@.bytes[i] == c.channel(i % 4),
{
    let m = canvas@;
    let w = m.width as int;
    let h = m.height as int;
    assert forall|i: int| 0 <= i < m.bytes.len() implies #[trigger] m.bytes[i] == c.channel(i % 4) by {
        let p = i / 4;
        let k = i % 4;
        let x = p % w;
        let y = p / w;
        assert(i == p * 4 + k && 0 <= k < 4 && 0 <= p) by (nonlinear_arith)
            requires
                0 <= i,
                p == i / 4,
                k == i % 4,
        ;
        assert(p == y * w + x && 0 <= x < w && 0 <= y) by (nonlinear_arith)
            requires
                0 <= p,
                w > 0,
                x == p % w,
                y == p / w,
        ;
        assert(p < w * h) by (nonlinear_arith)
            requires
                i == p * 4 + k,
                0 <= k < 4,
                i < 4 * w * h,
        ;
        assert(y < h) by (nonlinear_arith)
            requires
                p == y * w + x,
                0 <= x < w,
                0 <= y,
                p < w * h,
        ;
        assert(m.contains(x, y));
        assert(m.pixel(x, y) == c);
        assert(crate::raster::pixel_offset(w, x, y) == p * 4);
    }
}

impl PixelCanvas {
    /// A canvas that is not empty, whose buffer holds four bytes for each pixel.
    pub open spec fn wf(&self) -> bool {
        &&& self@.width > 0
        &&& self@.height > 0
        &&& self@.width <= u32::MAX
        &&& self@.height <= u32::MAX
        &&& 4 * self@.width * self@.height <= isize::MAX
        &&& self@.bytes.len() == 4 * self@.width * self@.height
    }

    /// A `width` by `height` canvas with every pixel `fill`; `None` when a
    /// dimension is zero.
    pub fn create(width: u32, height: u32, fill: Color) -> (r: Option<PixelCanvas>)
        requires
            4 * width * height <= isize::MAX,
        ensures
            r is None <==> (width == 0 || height == 0),
            r matches Some(c) ==> {
                &&& c.wf()
                &&& c@.width == width
                &&& c@.height == height
                &&& c@.all_pixels(fill)
            },
    {
        if width == 0 || height == 0 {
            return None;
        }
        let store = filled_image(width, height, fill);
        Some(PixelCanvas { store })
    }

    pub fn width(&self) -> (r: u32)
        ensures
            r == self@.width,
    {
        width_of(&self.store)
    }

    pub fn height(&self) -> (r: u32)
        ensures
            r == self@.height,
    {
        height_of(&self.store)
    }

    /// The pixel at `(x, y)`, which must lie on the canvas.
    pub fn get_pixel(&self, x: u32, y: u32) -> (c: Color)
        requires
            self@.contains(x as int, y as int),
        ensures
            c == self@.pixel(x as int, y as int),
    {
        read_pixel(&self.store, x, y)
    }

    /// Sets the pixel at `(x, y)` to `c`; does nothing when it lies off the canvas.
    pub fn set_pixel(&mut self, x: i64, y: i64, c: Color)
        requires
            old(self).wf(),
        ensures
            final(self).wf(),
            final(self)@.width == old(self)@.width,
            final(self)@.height == old(self)@.height,
            forall|i: int, j: int|
                old(self)@.contains(i, j) ==> #[trigger] final(self)@.pixel(i, j) == if i == x
                    && j == y {
                    c
                } else {
                    old(self)@.pixel(i, j)
                },
    {
        let w = width_of(&self.store);
        let h = height_of(&self.store);
        if 0 <= x && x < w as i64 && 0 <= y && y < h as i64 {
            write_pixel(&mut self.store, x as u32, y as u32, c);
        }
    }

    /// Sets every pixel of the half-open rectangle `[x0, x1) × [y0, y1)` that
    /// lies on the canvas to `c`; the other pixels stay.
    pub fn fill_rect(&mut self, x0: i64, y0: i64, x1: i64, y1: i64, c: Color)
        requires
            old(self).wf(),
        ensures
            final(self).wf(),
            final(self)@.width == old(self)@.width,
            final(self)@.height == old(self)@.height,
            forall|i: int, j: int|
                old(self)@.contains(i, j) ==> #[trigger] final(self)@.pixel(i, j) == if x0 <= i
                    < x1 && y0 <= j < y1 {
                    c
                } else {
                    old(self)@.pixel(i, j)
                },
    {
        let w = width_of(&self.store) as i64;
        let h = height_of(&self.store) as i64;
        let lx = if x0 < 0 { 0 } else if x0 > w { w } else { x0 };
        let hx = if x1 < 0 { 0 } else if x1 > w { w } else { x1 };
        let ly = if y0 < 0 { 0 } else if y0 > h { h } else { y0 };
        let hy = if y1 < 0 { 0 } else if y1 > h { h } else { y1 };
        if lx >= hx || ly >= hy {
            return;
        }
        let rw = (hx - lx) as u32;
        let rh = (hy - ly) as u32;
        proof {
            lemma_area_monotone(rw as int, rh as int, w as int, h as int);
        }
        let top = filled_image(rw, rh, c);
        replace_region(&mut self.store, &top, lx, ly);
    }

    /// Sets every pixel of the canvas to `c`.
    pub fn fill(&mut self, c: Color)
        requires
            old(self).wf(),
        ensures
            final(self).wf(),
            final(self)@.width == old(self)@.width,
            final(self)@.height == old(self)@.height,
            final(self)@.all_pixels(c),
    {
        let w = width_of(&self.store) as i64;
        let h = height_of(&self.store) as i64;
        self.fill_rect(0, 0, w, h, c);
    }

    /// The canvas's bytes: four per pixel, red, green, blue, alpha, row by row.
    pub fn to_raw_buffer(&self) -> (r: &Vec<u8>)
        ensures
            r@ == self@.bytes,
    {
        raw_of(&self.store)
    }
}

} // verus!
