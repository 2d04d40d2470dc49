//! The paint state: tool, brush and colours, text inputs, and the canvas
//! they act on.
use vstd::prelude::*;
use crate::color::Color;
use crate::canvas::PixelCanvas;
use crate::brush::{
    BrushShape, DirtyRect, in_footprint, dirty_rect_spec, scale_toward_zero, stamp, stamped,
    to_canvas_coord,
};
use crate::text::{brush_size_from, channel_from, decimal_text, next_brush_size, channel_value, u8_text};

verus! {

/// Which colour a stamp paints with.
#[derive(Clone, Copy, Debug, PartialEq, Eq, Structural)]
pub enum Tool {
    Brush,
    Eraser,
}

/// One of the three colour input fields.
#[derive(Clone, Copy, Debug, PartialEq, Eq, Structural)]
pub enum ColorChannel {
    Red,
    Green,
    Blue,
}

/// The brush size that a new state starts with.
pub const DEFAULT_BRUSH_SIZE: u32 = 5;

/// Stamping a pixel with the brush and then, with the eraser selected,
/// stamping the same point again leaves that pixel in the background colour,
/// whatever it held before. The brush stamp in between gives it the brush colour.
pub proof fn eraser_restores_background(
    s0: PaintState,
    s1: PaintState,
    s2: PaintState,
    px: int,
    py: int,
    rect1: DirtyRect,
    rect2: DirtyRect,
)
    requires
        s0.wf(),
        s0.current_tool == Tool::Brush,
        s0.draws(s1, px, py, rect1),
        (PaintState { current_tool: Tool::Eraser, ..s1 }).draws(s2, px, py, rect2),
        s0.canvas@.contains(s0.canvas_point(px, py).0, s0.canvas_point(px, py).1),
    ensures
        s1.canvas@.pixel(s0.canvas_point(px, py).0, s0.canvas_point(px, py).1) == s0.brush_color,
        s2.canvas@.pixel(s0.canvas_point(px, py).0, s0.canvas_point(px, py).1)
            == s0.background_color,
{
    let (cx, cy) = s0.canvas_point(px, py);
    let s1e = PaintState { current_tool: Tool::Eraser, ..s1 };
    let r = s0.brush_size as int;
    assert(0 * 0 + 0 * 0 <= r * r) by (nonlinear_arith);
    assert((cx - cx) * (cx - cx) + (cy - cy) * (cy - cy) <= r * r);
    assert(in_footprint(s0.brush_shape, cx, cy, r, cx, cy));
    assert(s1e.canvas_point(px, py) == (cx, cy));
    assert(s1.canvas@.contains(cx, cy));
}

/// Everything the user of a paint program sets, and the canvas it paints on.
pub struct PaintState {
    pub canvas: PixelCanvas,
    pub brush_color: Color,
    pub is_drawing: bool,
    pub brush_size: u32,
    pub current_tool: Tool,
    pub brush_shape: BrushShape,
    pub brush_size_input: String,
    pub color_r_input: String,
    pub color_g_input: String,
    pub color_b_input: String,
    pub background_color: Color,
    pub viewport_width: u32,
    pub viewport_height: u32,
}

impl PaintState {
    pub open spec fn wf(&self) -> bool {
        &&& self.canvas.wf()
        &&& self.brush_size > 0
        &&& self.viewport_width > 0
        &&& self.viewport_height > 0
    }

    /// The colour that a stamp paints with: the brush colour for the brush,
    /// the background colour for the eraser.
    pub open spec fn active_color(&self) -> Color {
        match self.current_tool {
            Tool::Brush => self.brush_color,
            Tool::Eraser => self.background_color,
        }
    }

    /// The canvas pixel under viewport point `(px, py)`.
    pub open spec fn canvas_point(&self, px: int, py: int) -> (int, int) {
        (
            scale_toward_zero(px, self.canvas@.width as int, self.viewport_width as int),
            scale_toward_zero(py, self.canvas@.height as int, self.viewport_height as int),
        )
    }

    /// `next` is `self` with the canvas replaced: every other field is kept.
    pub open spec fn keeps_settings(&self, next: PaintState) -> bool {
        next == (PaintState { canvas: next.canvas, ..*self })
    }

    /// `next` is `self` after one stamp at viewport point `(px, py)` with the
    /// current shape, size and active colour, and `rect` is its dirty rectangle.
    pub open spec fn draws(&self, next: PaintState, px: int, py: int, rect: DirtyRect) -> bool {
        let (cx, cy) = self.canvas_point(px, py);
        &&& next.wf()
        &&& self.keeps_settings(next)
        &&& stamped(
            self.canvas@,
            next.canvas@,
            self.brush_shape,
            cx,
            cy,
            self.brush_size as int,
            self.active_color(),
        )
        &&& rect == dirty_rect_spec(
            cx,
            cy,
            self.brush_size as int,
            self.canvas@.width as int,
            self.canvas@.height as int,
            self.viewport_width as int,
            self.viewport_height as int,
        )
    }

    /// The brush colour that the three colour fields give: each parsed on its
    /// own (0 where it is not a byte), fully opaque.
    pub open spec fn color_from_inputs(&self) -> Color {
        Color {
            r: channel_from(self.color_r_input@),
            g: channel_from(self.color_g_input@),
            b: channel_from(self.color_b_input@),
            a: 255,
        }
    }

    /// A state on `canvas`, shown at `viewport_width` by `viewport_height`:
    /// brush tool, square shape, size 5, black brush, white background, not
    /// drawing, and the input fields showing those values.
    pub fn new(canvas: PixelCanvas, viewport_width: u32, viewport_height: u32) -> (s: PaintState)
        requires
            canvas.wf(),
            viewport_width > 0,
            viewport_height > 0,
        ensures
            s.wf(),
            s.canvas == canvas,
            s.brush_color == Color::black_spec(),
            !s.is_drawing,
            s.brush_size == DEFAULT_BRUSH_SIZE,
            s.current_tool == Tool::Brush,
            s.brush_shape == BrushShape::Square,
            s.brush_size_input@ == decimal_text(DEFAULT_BRUSH_SIZE as nat),
            s.color_r_input@ == decimal_text(0),
            s.color_g_input@ == decimal_text(0),
            s.color_b_input@ == decimal_text(0),
            s.background_color == Color::white_spec(),
            s.viewport_width == viewport_width,
            s.viewport_height == viewport_height,
    {
        PaintState {
            canvas,
            brush_color: Color::black(),
            is_drawing: false,
            brush_size: DEFAULT_BRUSH_SIZE,
            current_tool: Tool::Brush,
            brush_shape: BrushShape::Square,
            brush_size_input: u8_text(5),
            color_r_input: u8_text(0),
            color_g_input: u8_text(0),
            color_b_input: u8_text(0),
            background_color: Color::white(),
            viewport_width,
            viewport_height,
        }
    }

    /// The colour that a stamp paints with now.
    pub fn stroke_color(&self) -> (c: Color)
        ensures
            c == self.active_color(),
    {
        match self.current_tool {
            Tool::Brush => self.brush_color,
            Tool::Eraser => self.background_color,
        }
    }

    /// One stamp at viewport point `(px, py)`, scaled to the canvas, with the
    /// current shape, size and colour. Returns the viewport rectangle to repaint.
    pub fn draw_on_canvas(&mut self, px: i32, py: i32) -> (rect: DirtyRect)
        requires
            old(self).wf(),
        ensures
            old(self).draws(*final(self), px as int, py as int, rect),
    {
        let color = self.stroke_color();
        let cw = self.canvas.width();
        let ch = self.canvas.height();
        let cx = to_canvas_coord(px, cw, self.viewport_width);
        let cy = to_canvas_coord(py, ch, self.viewport_height);
        stamp(
            &mut self.canvas,
            cx,
            cy,
            self.brush_size,
            self.brush_shape,
            color,
            self.viewport_width,
            self.viewport_height,
        )
    }

    /// Starts a stroke: drawing becomes active and one stamp is made at once.
    pub fn begin_stroke(&mut self, px: i32, py: i32) -> (rect: DirtyRect)
        requires
            old(self).wf(),
        ensures
            (PaintState { is_drawing: true, ..*old(self) }).draws(
                *final(self),
                px as int,
                py as int,
                rect,
            ),
    {
        self.is_drawing = true;
        self.draw_on_canvas(px, py)
    }

    /// Continues a stroke: one stamp while drawing is active, nothing otherwise.
    pub fn continue_stroke(&mut self, px: i32, py: i32) -> (r: Option<DirtyRect>)
        requires
            old(self).wf(),
        ensures
            old(self).is_drawing ==> (r matches Some(rect) && old(self).draws(
                *final(self),
                px as int,
                py as int,
                rect,
            )),
            !old(self).is_drawing ==> r is None && *final(self) == *old(self),
    {
        if self.is_drawing {
            Some(self.draw_on_canvas(px, py))
        } else {
            None
        }
    }

    /// Ends a stroke.
    pub fn end_stroke(&mut self)
        ensures
            *final(self) == (PaintState { is_drawing: false, ..*old(self) }),
    {
        self.is_drawing = false;
    }

    /// Sets the brush size from `text` when it is a positive decimal number
    /// that fits in a `u32`; leaves it as it is otherwise.
    pub fn commit_brush_size_input(&mut self, text: &str)
        ensures
            *final(self) == (PaintState {
                brush_size: brush_size_from(old(self).brush_size, text@),
                ..*old(self)
            }),
    {
        self.brush_size = next_brush_size(self.brush_size, text);
    }

    /// Commits the pending brush-size field, as `commit_brush_size_input` does.
    pub fn commit_pending_brush_size(&mut self)
        ensures
            *final(self) == (PaintState {
                brush_size: brush_size_from(old(self).brush_size, old(self).brush_size_input@),
                ..*old(self)
            }),
    {
        let size = next_brush_size(self.brush_size, self.brush_size_input.as_str());
        self.brush_size = size;
    }

    /// Sets the brush colour from the three colour fields.
    pub fn commit_color_input(&mut self)
        ensures
            *final(self) == (PaintState { brush_color: old(self).color_from_inputs(), ..*old(self) }),
    {
        let r = channel_value(self.color_r_input.as_str());
        let g = channel_value(self.color_g_input.as_str());
        let b = channel_value(self.color_b_input.as_str());
        self.brush_color = Color::opaque(r, g, b);
    }

    /// Replaces the pending text of the brush-size field.
    pub fn set_brush_size_text(&mut self, text: String)
        ensures
            *final(self) == (PaintState { brush_size_input: text, ..*old(self) }),
    {
        self.brush_size_input = text;
    }

    /// Replaces the pending text of one colour field.
    pub fn set_color_channel_text(&mut self, channel: ColorChannel, text: String)
        ensures
            *final(self) == match channel {
                ColorChannel::Red => PaintState { color_r_input: text, ..*old(self) },
                ColorChannel::Green => PaintState { color_g_input: text, ..*old(self) },
                ColorChannel::Blue => PaintState { color_b_input: text, ..*old(self) },
            },
    {
        match channel {
            ColorChannel::Red => self.color_r_input = text,
            ColorChannel::Green => self.color_g_input = text,
            ColorChannel::Blue => self.color_b_input = text,
        }
    }

    pub fn select_tool(&mut self, tool: Tool)
        ensures
            *final(self) == (PaintState { current_tool: tool, ..*old(self) }),
    {
        self.current_tool = tool;
    }

    pub fn select_brush_shape(&mut self, shape: BrushShape)
        ensures
            *final(self) == (PaintState { brush_shape: shape, ..*old(self) }),
    {
        self.brush_shape = shape;
    }

    /// Makes `color` the brush colour and shows its channels in the colour fields.
    pub fn select_palette_color(&mut self, color: Color)
        ensures
            final(self).brush_color == color,
            final(self).color_r_input@ == decimal_text(color.r as nat),
            final(self).color_g_input@ == decimal_text(color.g as nat),
            final(self).color_b_input@ == decimal_text(color.b as nat),
            *final(self) == (PaintState {
                brush_color: color,
                color_r_input: final(self).color_r_input,
                color_g_input: final(self).color_g_input,
                color_b_input: final(self).color_b_input,
                ..*old(self)
            }),
    {
        self.brush_color = color;
        self.color_r_input = u8_text(color.r);
        self.color_g_input = u8_text(color.g);
        self.color_b_input = u8_text(color.b);
    }

    /// Makes `color` the background colour and paints the whole canvas with it.
    pub fn set_background_color(&mut self, color: Color)
        requires
            old(self).wf(),
        ensures
            final(self).wf(),
            final(self).background_color == color,
            (PaintState { background_color: color, ..*old(self) }).keeps_settings(*final(self)),
            final(self).canvas@.width == old(self).canvas@.width,
            final(self).canvas@.height == old(self).canvas@.height,
            final(self).canvas@.all_pixels(color),
            forall|i: int|
                0 <= i < final(self).canvas@.bytes.len() ==> #[trigger] final(self).canvas@.bytes[i]
                    == color.channel(i % 4),
    {
        self.background_color = color;
        self.canvas.fill(color);
        proof {
            crate::canvas::uniform_canvas_bytes(&self.canvas, color);
        }
    }

    /// Paints the whole canvas opaque white, whatever the background colour.
    pub fn clear_canvas(&mut self)
        requires
            old(self).wf(),
        ensures
            final(self).wf(),
            old(self).keeps_settings(*final(self)),
            final(self).canvas@.width == old(self).canvas@.width,
            final(self).canvas@.height == old(self).canvas@.height,
            final(self).canvas@.all_pixels(Color::white_spec()),
    {
        self.canvas.fill(Color::white());
    }
}

} // verus!
