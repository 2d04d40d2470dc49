//! Brush stamps: which pixels a square or round brush covers, and the
//! conversions between viewport and canvas coordinates.
use vstd::prelude::*;
use crate::color::Color;
use crate::canvas::{PixelCanvas, CanvasModel, clamp_to};

verus! {

/// The footprint of a stamp.
#[derive(Clone, Copy, Debug, PartialEq, Eq, Structural)]
pub enum BrushShape {
    Square,
    Circle,
}

/// A rectangle `[left, right) × [top, bottom)` in viewport coordinates.
#[derive(Clone, Copy, Debug, PartialEq, Eq, Structural)]
pub struct DirtyRect {
    pub left: u64,
    pub top: u64,
    pub right: u64,
    pub bottom: u64,
}

/// Whether `(x, y)` lies within distance `r` of `(cx, cy)`.
pub open spec fn in_disc(cx: int, cy: int, r: int, x: int, y: int) -> bool {
    (x - cx) * (x - cx) + (y - cy) * (y - cy) <= r * r
}

/// Whether a stamp of the given shape and radius at `(cx, cy)` covers `(x, y)`.
pub open spec fn in_footprint(shape: BrushShape, cx: int, cy: int, r: int, x: int, y: int) -> bool {
    match shape {
        BrushShape::Square => cx - r <= x <= cx + r && cy - r <= y <= cy + r,
        BrushShape::Circle => in_disc(cx, cy, r, x, y),
    }
}

/// First index of `[c - r, c + r]` that lies in `[0, n)`, or `n`.
pub open spec fn span_lo(c: int, r: int, n: int) -> int {
    clamp_to(c - r, 0, n)
}

/// One past the last index of `[c - r, c + r]` that lies in `[0, n)`; equal
/// to `span_lo` when there is none.
pub open spec fn span_hi(c: int, r: int, n: int) -> int {
    clamp_to(c + r + 1, span_lo(c, r, n), n)
}

/// `p * num / den`, truncated toward zero.
pub open spec fn scale_toward_zero(p: int, num: int, den: int) -> int {
    if p >= 0 {
        p * num / den
    } else {
        -((-p) * num / den)
    }
}

/// `p * num / den`, rounded up, for `p >= 0`.
pub open spec fn scale_up(p: int, num: int, den: int) -> int {
    (p * num + den - 1) / den
}

/// The viewport rectangle that covers the pixels a stamp of radius `r` at
/// `(cx, cy)` can change on a `cw` by `ch` canvas shown at `vw` by `vh`.
pub open spec fn dirty_rect_spec(
    cx: int,
    cy: int,
    r: int,
    cw: int,
    ch: int,
    vw: int,
    vh: int,
) -> DirtyRect {
    DirtyRect {
        left: (span_lo(cx, r, cw) * vw / cw) as u64,
        top: (span_lo(cy, r, ch) * vh / ch) as u64,
        right: scale_up(span_hi(cx, r, cw), vw, cw) as u64,
        bottom: scale_up(span_hi(cy, r, ch), vh, ch) as u64,
    }
}

/// `after` is `before` with a stamp of the given shape, radius and colour at
/// `(cx, cy)` painted on it.
pub open spec fn stamped(
    before: CanvasModel,
    after: CanvasModel,
    shape: BrushShape,
    cx: int,
    cy: int,
    r: int,
    color: Color,
) -> bool {
    &&& after.width == before.width
    &&& after.height == before.height
    &&& forall|x: int, y: int|
        before.contains(x, y) ==> #[trigger] after.pixel(x, y) == if in_footprint(
            shape,
            cx,
            cy,
            r,
            x,
            y,
        ) {
            color
        } else {
            before.pixel(x, y)
        }
}

/// The cells `[x0, x0 + n) × [y0, y0 + m)`.
pub open spec fn cells(x0: int, y0: int, n: int, m: int) -> Set<(int, int)> {
    Set::new(|p: (int, int)| x0 <= p.0 < x0 + n && y0 <= p.1 < y0 + m)
}

/// The cells that a square stamp of radius `r` at `(cx, cy)` covers, on the
/// canvas or off it.
pub open spec fn square_cells(cx: int, cy: int, r: int) -> Set<(int, int)> {
    cells(cx - r, cy - r, 2 * r + 1, 2 * r + 1)
}

proof fn lemma_cells_count(x0: int, y0: int, n: nat, m: nat)
    ensures
        cells(x0, y0, n as int, m as int).finite(),
        cells(x0, y0, n as int, m as int).len() == n * m,
    decreases n + m,
{
    if n == 0 || m == 0 {
        assert(cells(x0, y0, n as int, m as int) =~= Set::empty());
        assert(n * m == 0) by (nonlinear_arith)
            requires
                n == 0 || m == 0,
        ;
    } else if m == 1 {
        lemma_cells_count(x0, y0, (n - 1) as nat, 1);
        let smaller = cells(x0, y0, n - 1, 1);
        assert(cells(x0, y0, n as int, 1) =~= smaller.insert((x0 + n - 1, y0)));
        assert(!smaller.contains((x0 + n - 1, y0)));
    } else {
        lemma_cells_count(x0, y0, n, (m - 1) as nat);
        lemma_cells_count(x0, y0 + m - 1, n, 1);
        let lower = cells(x0, y0, n as int, m - 1);
        let row = cells(x0, y0 + m - 1, n as int, 1);
        assert(cells(x0, y0, n as int, m as int) =~= lower.union(row));
        assert(lower.disjoint(row));
        vstd::set_lib::lemma_set_disjoint_lens(lower, row);
        assert(n * (m - 1) + n * 1 == n * m) by (nonlinear_arith);
    }
}

/// A square stamp of radius `r` covers `(2r + 1)²` cells. The canvas pixels it
/// paints are the ones among them that lie on the canvas, each in the stamp
/// colour; every other pixel keeps its colour.
pub proof fn square_stamp_cells(
    before: CanvasModel,
    after: CanvasModel,
    cx: int,
    cy: int,
    r: int,
    color: Color,
)
    requires
        r >= 0,
        stamped(before, after, BrushShape::Square, cx, cy, r, color),
    ensures
        square_cells(cx, cy, r).finite(),
        square_cells(cx, cy, r).len() == (2 * r + 1) * (2 * r + 1),
        forall|x: int, y: int|
            before.contains(x, y) && square_cells(cx, cy, r).contains((x, y)) ==> #[trigger] after.pixel(
                x,
                y,
            ) == color,
        forall|x: int, y: int|
            before.contains(x, y) && !square_cells(cx, cy, r).contains((x, y)) ==> #[trigger] after.pixel(
                x,
                y,
            ) == before.pixel(x, y),
{
    lemma_cells_count(cx - r, cy - r, (2 * r + 1) as nat, (2 * r + 1) as nat);
}

proof fn lemma_square_bound(d: int, r: int)
    requires
        0 <= r,
        -r <= d <= r,
    ensures
        0 <= d * d <= r * r,
{
    assert(0 <= d * d <= r * r) by (nonlinear_arith)
        requires
            0 <= r,
            -r <= d <= r,
    ;
}

proof fn lemma_disc_in_box(cx: int, cy: int, r: int, x: int, y: int)
    requires
        0 <= r,
        in_disc(cx, cy, r, x, y),
    ensures
        cx - r <= x <= cx + r,
        cy - r <= y <= cy + r,
{
    let dx = x - cx;
    let dy = y - cy;
    assert(dx * dx <= r * r && dy * dy <= r * r) by (nonlinear_arith)
        requires
            dx * dx + dy * dy <= r * r,
    ;
    assert(-r <= dx <= r) by (nonlinear_arith)
        requires
            0 <= r,
            dx * dx <= r * r,
    ;
    assert(-r <= dy <= r) by (nonlinear_arith)
        requires
            0 <= r,
            dy * dy <= r * r,
    ;
}

proof fn lemma_product_fits(a: int, b: int)
    requires
        0 <= a <= u32::MAX,
        0 <= b <= u32::MAX,
    ensures
        a * b <= (u32::MAX as int) * (u32::MAX as int),
        0 <= a * b,
{
    assert(0 <= a * b <= (u32::MAX as int) * (u32::MAX as int)) by (nonlinear_arith)
        requires
            0 <= a <= u32::MAX,
            0 <= b <= u32::MAX,
    ;
}

proof fn lemma_scaled_within(p: int, num: int, den: int)
    requires
        0 <= p <= den,
        0 < den,
        0 <= num,
    ensures
        0 <= p * num / den <= num,
        0 <= scale_up(p, num, den) <= num,
{
    assert(0 <= p * num <= den * num) by (nonlinear_arith)
        requires
            0 <= p <= den,
            0 <= num,
    ;
    assert(p * num / den <= num) by (nonlinear_arith)
        requires
            0 <= p * num <= den * num,
            0 < den,
    ;
    assert(0 <= (p * num + den - 1) / den <= num) by (nonlinear_arith)
        requires
            0 <= p * num <= den * num,
            0 < den,
    ;
}

/// Canvas coordinate of a viewport coordinate: `p * canvas_extent /
/// viewport_extent`, truncated toward zero.
pub fn to_canvas_coord(p: i32, canvas_extent: u32, viewport_extent: u32) -> (c: i64)
    requires
        viewport_extent > 0,
    ensures
        c == scale_toward_zero(p as int, canvas_extent as int, viewport_extent as int),
{
    let n = canvas_extent as i64;
    let d = viewport_extent as i64;
    if p >= 0 {
        let q = p as i64;
        assert(0 <= q * n < 0x8000_0000_0000_0000) by (nonlinear_arith)
            requires
                0 <= q <= 0x8000_0000,
                0 <= n <= u32::MAX,
        ;
        q * n / d
    } else {
        let q = -(p as i64);
        assert(0 <= q * n < 0x8000_0000_0000_0000) by (nonlinear_arith)
            requires
                0 <= q <= 0x8000_0000,
                0 <= n <= u32::MAX,
        ;
        -(q * n / d)
    }
}

fn clamp_wide(v: i128, lo: i128, hi: i128) -> (r: i128)
    requires
        lo <= hi,
    ensures
        r == clamp_to(v as int, lo as int, hi as int),
{
    if v < lo {
        lo
    } else if v > hi {
        hi
    } else {
        v
    }
}

/// The covered span `[lo, hi)` of `[c - r, c + r]` on `[0, n)`.
fn span(c: i64, r: u32, n: u32) -> (s: (i64, i64))
    ensures
        s.0 == span_lo(c as int, r as int, n as int),
        s.1 == span_hi(c as int, r as int, n as int),
        0 <= s.0 <= s.1 <= n,
{
    let lo = clamp_wide(c as i128 - r as i128, 0, n as i128);
    let hi = clamp_wide(c as i128 + r as i128 + 1, lo, n as i128);
    (lo as i64, hi as i64)
}

/// The viewport rectangle to repaint after a stamp of radius `radius` at
/// canvas pixel `(cx, cy)`: the covered part of the stamp's bounding box,
/// scaled from the canvas size to the viewport size, rounded outward.
pub fn dirty_rect(
    cx: i64,
    cy: i64,
    radius: u32,
    canvas_width: u32,
    canvas_height: u32,
    viewport_width: u32,
    viewport_height: u32,
) -> (rect: DirtyRect)
    requires
        canvas_width > 0,
        canvas_height > 0,
    ensures
        rect == dirty_rect_spec(
            cx as int,
            cy as int,
            radius as int,
            canvas_width as int,
            canvas_height as int,
            viewport_width as int,
            viewport_height as int,
        ),
        rect.left <= rect.right <= viewport_width,
        rect.top <= rect.bottom <= viewport_height,
{
    let (xl, xh) = span(cx, radius, canvas_width);
    let (yl, yh) = span(cy, radius, canvas_height);
    let cw = canvas_width as u64;
    let ch = canvas_height as u64;
    let vw = viewport_width as u64;
    let vh = viewport_height as u64;
    proof {
        lemma_product_fits(xl as int, vw as int);
        lemma_product_fits(xh as int, vw as int);
        lemma_product_fits(yl as int, vh as int);
        lemma_product_fits(yh as int, vh as int);
        lemma_scaled_within(xl as int, vw as int, cw as int);
        lemma_scaled_within(xh as int, vw as int, cw as int);
        lemma_scaled_within(yl as int, vh as int, ch as int);
        lemma_scaled_within(yh as int, vh as int, ch as int);
        assert(xl as int * vw as int / cw as int <= scale_up(xh as int, vw as int, cw as int))
            by (nonlinear_arith)
            requires
                0 <= xl <= xh,
                0 < cw,
                0 <= vw,
        ;
        assert(yl as int * vh as int / ch as int <= scale_up(yh as int, vh as int, ch as int))
            by (nonlinear_arith)
            requires
                0 <= yl <= yh,
                0 < ch,
                0 <= vh,
        ;
    }
    DirtyRect {
        left: xl as u64 * vw / cw,
        top: yl as u64 * vh / ch,
        right: (xh as u64 * vw + cw - 1) / cw,
        bottom: (yh as u64 * vh + ch - 1) / ch,
    }
}

/// Paints `color` on every canvas pixel that a stamp of the given shape and
/// radius at canvas pixel `(cx, cy)` covers; the other pixels stay. Returns
/// the viewport rectangle to repaint.
pub fn stamp(
    canvas: &mut PixelCanvas,
    cx: i64,
    cy: i64,
    radius: u32,
    shape: BrushShape,
    color: Color,
    viewport_width: u32,
    viewport_height: u32,
) -> (rect: DirtyRect)
    requires
        old(canvas).wf(),
    ensures
        final(canvas).wf(),
        final(canvas)@.width == old(canvas)@.width,
        final(canvas)@.height == old(canvas)@.height,
        forall|x: int, y: int|
            old(canvas)@.contains(x, y) ==> #[trigger] final(canvas)@.pixel(x, y) == if in_footprint(
                shape,
                cx as int,
                cy as int,
                radius as int,
                x,
                y,
            ) {
                color
            } else {
                old(canvas)@.pixel(x, y)
            },
        rect == dirty_rect_spec(
            cx as int,
            cy as int,
            radius as int,
            old(canvas)@.width as int,
            old(canvas)@.height as int,
            viewport_width as int,
            viewport_height as int,
        ),
{
    let w = canvas.width();
    let h = canvas.height();
    let (xl, xh) = span(cx, radius, w);
    let (yl, yh) = span(cy, radius, h);
    match shape {
        BrushShape::Square => {
            canvas.fill_rect(xl, yl, xh, yh, color);
        },
        BrushShape::Circle => {
            stamp_disc(canvas, cx, cy, radius, color, xl, xh, yl, yh);
        },
    }
    dirty_rect(cx, cy, radius, w, h, viewport_width, viewport_height)
}

fn stamp_disc(
    canvas: &mut PixelCanvas,
    cx: i64,
    cy: i64,
    radius: u32,
    color: Color,
    xl: i64,
    xh: i64,
    yl: i64,
    yh: i64,
)
    requires
        old(canvas).wf(),
        xl == span_lo(cx as int, radius as int, old(canvas)@.width as int),
        xh == span_hi(cx as int, radius as int, old(canvas)@.width as int),
        yl == span_lo(cy as int, radius as int, old(canvas)@.height as int),
        yh == span_hi(cy as int, radius as int, old(canvas)@.height as int),
        0 <= xl <= xh <= old(canvas)@.width,
        0 <= yl <= yh <= old(canvas)@.height,
    ensures
        final(canvas).wf(),
        final(canvas)@.width == old(canvas)@.width,
        final(canvas)@.height == old(canvas)@.height,
        forall|x: int, y: int|
            old(canvas)@.contains(x, y) ==> #[trigger] final(canvas)@.pixel(x, y) == if in_disc(
                cx as int,
                cy as int,
                radius as int,
                x,
                y,
            ) {
                color
            } else {
                old(canvas)@.pixel(x, y)
            },
{
    let ghost orig: CanvasModel = canvas@;
    let r = radius as i128;
    proof {
        lemma_product_fits(r as int, r as int);
    }
    let rr = r * r;
    let mut x: i64 = xl;
    while x < xh
        invariant
            xl <= x <= xh,
            0 <= xl <= xh <= orig.width,
            0 <= yl <= yh <= orig.height,
            xl == span_lo(cx as int, radius as int, orig.width as int),
            xh == span_hi(cx as int, radius as int, orig.width as int),
            yl == span_lo(cy as int, radius as int, orig.height as int),
            yh == span_hi(cy as int, radius as int, orig.height as int),
            r == radius,
            rr == r * r,
            canvas.wf(),
            canvas@.width == orig.width,
            canvas@.height == orig.height,
            forall|i: int, j: int|
                orig.contains(i, j) ==> #[trigger] canvas@.pixel(i, j) == if xl <= i < x && yl <= j
                    < yh && in_disc(cx as int, cy as int, radius as int, i, j) {
                    color
                } else {
                    orig.pixel(i, j)
                },
        decreases xh - x,
    {
        let mut y: i64 = yl;
        while y < yh
            invariant
                xl <= x < xh,
                yl <= y <= yh,
                0 <= xl <= xh <= orig.width,
                0 <= yl <= yh <= orig.height,
                xl == span_lo(cx as int, radius as int, orig.width as int),
                xh == span_hi(cx as int, radius as int, orig.width as int),
                yl == span_lo(cy as int, radius as int, orig.height as int),
                yh == span_hi(cy as int, radius as int, orig.height as int),
                r == radius,
                rr == r * r,
                canvas.wf(),
                canvas@.width == orig.width,
                canvas@.height == orig.height,
                forall|i: int, j: int|
                    orig.contains(i, j) ==> #[trigger] canvas@.pixel(i, j) == if (xl <= i < x && yl
                        <= j < yh || i == x && yl <= j < y) && in_disc(
                        cx as int,
                        cy as int,
                        radius as int,
                        i,
                        j,
                    ) {
                        color
                    } else {
                        orig.pixel(i, j)
                    },
            decreases yh - y,
        {
            let dx = x as i128 - cx as i128;
            let dy = y as i128 - cy as i128;
            proof {
                assert(-r <= dx <= r);
                assert(-r <= dy <= r);
                lemma_square_bound(dx as int, r as int);
                lemma_square_bound(dy as int, r as int);
                lemma_product_fits(r as int, r as int);
                assert(0 <= dx * dx <= 0x1_0000_0000_0000_0000);
                assert(0 <= dy * dy <= 0x1_0000_0000_0000_0000);
            }
            let sx = dx * dx;
            let sy = dy * dy;
            if sx + sy <= rr {
                canvas.set_pixel(x, y, color);
            }
            y = y + 1;
        }
        x = x + 1;
    }
    assert forall|i: int, j: int| orig.contains(i, j) implies #[trigger] canvas@.pixel(i, j) == if in_disc(
        cx as int,
        cy as int,
        radius as int,
        i,
        j,
    ) {
        color
    } else {
        orig.pixel(i, j)
    } by {
        if in_disc(cx as int, cy as int, radius as int, i, j) {
            lemma_disc_in_box(cx as int, cy as int, radius as int, i, j);
        }
    }
}

} // verus!
