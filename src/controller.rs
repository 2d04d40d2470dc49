//! What the canvas widget and the input fields do with the events they get.
use vstd::prelude::*;
use crate::brush::DirtyRect;
use crate::state::PaintState;
use crate::text::brush_size_from;

verus! {

/// The shortest time between two requested animation frames, in milliseconds.
pub const FRAME_INTERVAL_MS: u64 = 16;

/// A pointer event on the canvas, at a point in viewport coordinates.
#[derive(Clone, Copy, Debug, PartialEq, Eq, Structural)]
pub enum PointerEvent {
    Down { x: i32, y: i32 },
    Move { x: i32, y: i32 },
    Up,
}

/// What the shell should do after a pointer event.
#[derive(Clone, Copy, Debug, PartialEq, Eq, Structural)]
pub struct PointerResponse {
    /// The viewport rectangle to repaint, when a stamp was made.
    pub dirty: Option<DirtyRect>,
    /// Whether to request an animation frame now.
    pub request_frame: bool,
}

/// Turns pointer events into strokes, and requests at most one animation
/// frame per interval.
pub struct CanvasController {
    pub last_paint_ms: u64,
}

impl CanvasController {
    /// A controller whose last frame was at `now_ms`.
    pub fn new(now_ms: u64) -> (c: CanvasController)
        ensures
            c.last_paint_ms == now_ms,
    {
        CanvasController { last_paint_ms: now_ms }
    }

    /// Whether a frame is due at `now_ms`: a full interval has passed since
    /// the last one (no time passes when the clock is behind it).
    pub open spec fn frame_due(&self, now_ms: u64) -> bool {
        now_ms >= self.last_paint_ms && now_ms - self.last_paint_ms >= FRAME_INTERVAL_MS
    }

    /// Handles one pointer event at time `now_ms`. A press starts a stroke and
    /// stamps; a move stamps while a stroke is active; a release ends the
    /// stroke. A stamp requests a frame when one is due.
    pub fn event(&mut self, state: &mut PaintState, event: PointerEvent, now_ms: u64) -> (r:
        PointerResponse)
        requires
            old(state).wf(),
        ensures
            final(state).wf(),
            match event {
                PointerEvent::Down { x, y } => r.dirty matches Some(rect) && (PaintState {
                    is_drawing: true,
                    ..*old(state)
                }).draws(*final(state), x as int, y as int, rect),
                PointerEvent::Move { x, y } => if old(state).is_drawing {
                    r.dirty matches Some(rect) && old(state).draws(
                        *final(state),
                        x as int,
                        y as int,
                        rect,
                    )
                } else {
                    r.dirty is None && *final(state) == *old(state)
                },
                PointerEvent::Up => r.dirty is None && *final(state) == (PaintState {
                    is_drawing: false,
                    ..*old(state)
                }),
            },
            r.request_frame == (r.dirty is Some && old(self).frame_due(now_ms)),
            final(self).last_paint_ms == if r.request_frame {
                now_ms
            } else {
                old(self).last_paint_ms
            },
    {
        let dirty = match event {
            PointerEvent::Down { x, y } => Some(state.begin_stroke(x, y)),
            PointerEvent::Move { x, y } => state.continue_stroke(x, y),
            PointerEvent::Up => {
                state.end_stroke();
                None
            },
        };
        let due = now_ms >= self.last_paint_ms && now_ms - self.last_paint_ms >= FRAME_INTERVAL_MS;
        let request_frame = dirty.is_some() && due;
        if request_frame {
            self.last_paint_ms = now_ms;
        }
        PointerResponse { dirty, request_frame }
    }
}

/// Commits the input fields it watches when Enter is pressed in one of them.
pub struct TextBoxController {
    pub is_brush_size: bool,
    pub is_color_r: bool,
    pub is_color_g: bool,
    pub is_color_b: bool,
}

impl TextBoxController {
    pub fn new(is_brush_size: bool, is_color_r: bool, is_color_g: bool, is_color_b: bool) -> (c:
        TextBoxController)
        ensures
            c == (TextBoxController { is_brush_size, is_color_r, is_color_g, is_color_b }),
    {
        TextBoxController { is_brush_size, is_color_r, is_color_g, is_color_b }
    }

    /// Whether this controller watches one of the colour fields.
    pub open spec fn watches_color(&self) -> bool {
        self.is_color_r || self.is_color_g || self.is_color_b
    }

    /// Enter was pressed: the brush-size field is committed when it is watched,
    /// and the brush colour is recomposed from all three colour fields when
    /// one of them is.
    pub fn on_enter(&self, state: &mut PaintState)
        ensures
            *final(state) == (PaintState {
                brush_size: if self.is_brush_size {
                    brush_size_from(old(state).brush_size, old(state).brush_size_input@)
                } else {
                    old(state).brush_size
                },
                brush_color: if self.watches_color() {
                    old(state).color_from_inputs()
                } else {
                    old(state).brush_color
                },
                ..*old(state)
            }),
    {
        if self.is_brush_size {
            state.commit_pending_brush_size();
        }
        if self.is_color_r || self.is_color_g || self.is_color_b {
            state.commit_color_input();
        }
    }
}

} // verus!
