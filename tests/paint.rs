use image::ImageEncoder;
use paint_engine::brush::{dirty_rect, stamp, to_canvas_coord, BrushShape, DirtyRect};
use paint_engine::canvas::PixelCanvas;
use paint_engine::color::Color;
use paint_engine::controller::{CanvasController, PointerEvent, TextBoxController};
use paint_engine::state::{ColorChannel, PaintState, Tool};
use paint_engine::text::{channel_value, next_brush_size};

fn white_canvas(w: u32, h: u32) -> PixelCanvas {
    PixelCanvas::create(w, h, Color::white()).unwrap()
}

fn count_color(c: &PixelCanvas, color: Color) -> usize {
    let mut n = 0;
    for y in 0..c.height() {
        for x in 0..c.width() {
            if c.get_pixel(x, y) == color {
                n += 1;
            }
        }
    }
    n
}

fn default_state() -> PaintState {
    PaintState::new(white_canvas(800, 600), 800, 600)
}

#[test]
fn create_fills_every_pixel() {
    let c = PixelCanvas::create(4, 3, Color::new(1, 2, 3, 4)).unwrap();
    assert_eq!(c.width(), 4);
    assert_eq!(c.height(), 3);
    assert_eq!(c.to_raw_buffer().len(), 48);
    assert_eq!(count_color(&c, Color::new(1, 2, 3, 4)), 12);
}

#[test]
fn create_rejects_zero_dimension() {
    assert!(PixelCanvas::create(0, 5, Color::white()).is_none());
    assert!(PixelCanvas::create(5, 0, Color::white()).is_none());
}

#[test]
fn set_pixel_off_canvas_is_ignored() {
    let mut c = white_canvas(3, 3);
    c.set_pixel(-1, 0, Color::black());
    c.set_pixel(3, 1, Color::black());
    assert_eq!(count_color(&c, Color::white()), 9);
    c.set_pixel(2, 1, Color::black());
    assert_eq!(c.get_pixel(2, 1), Color::black());
    assert_eq!(count_color(&c, Color::white()), 8);
    let raw = c.to_raw_buffer();
    let i = (1 * 3 + 2) * 4;
    assert_eq!(&raw[i..i + 4], &[0, 0, 0, 255]);
}

#[test]
fn fill_rect_clips_to_canvas() {
    let mut c = white_canvas(5, 4);
    c.fill_rect(-3, 2, 2, 100, Color::black());
    assert_eq!(count_color(&c, Color::black()), 4);
    assert_eq!(c.get_pixel(0, 2), Color::black());
    assert_eq!(c.get_pixel(1, 3), Color::black());
    assert_eq!(c.get_pixel(2, 2), Color::white());
    assert_eq!(c.get_pixel(0, 1), Color::white());
}

#[test]
fn square_stamp_colors_full_square() {
    let mut c = white_canvas(50, 40);
    let red = Color::opaque(255, 0, 0);
    for r in 0..4u32 {
        let mut d = white_canvas(50, 40);
        stamp(&mut d, 20, 20, r, BrushShape::Square, red, 50, 40);
        let side = (2 * r + 1) as usize;
        assert_eq!(count_color(&d, red), side * side);
    }
    stamp(&mut c, 20, 20, 2, BrushShape::Square, red, 50, 40);
    assert_eq!(c.get_pixel(18, 22), red);
    assert_eq!(c.get_pixel(17, 20), Color::white());
    assert_eq!(c.get_pixel(20, 23), Color::white());
}

#[test]
fn square_stamp_is_clipped_at_edge() {
    let mut c = white_canvas(50, 40);
    stamp(&mut c, 49, 39, 2, BrushShape::Square, Color::black(), 50, 40);
    assert_eq!(count_color(&c, Color::black()), 9);
}

#[test]
fn circle_stamp_colors_closed_disc() {
    let mut c = white_canvas(60, 60);
    let blue = Color::opaque(0, 0, 255);
    stamp(&mut c, 30, 25, 3, BrushShape::Circle, blue, 60, 60);
    for y in 0..60i64 {
        for x in 0..60i64 {
            let inside = (x - 30) * (x - 30) + (y - 25) * (y - 25) <= 9;
            let expected = if inside { blue } else { Color::white() };
            assert_eq!(c.get_pixel(x as u32, y as u32), expected);
        }
    }
    assert_eq!(count_color(&c, blue), 29);
}

#[test]
fn radius_zero_stamps_one_pixel() {
    for shape in [BrushShape::Square, BrushShape::Circle] {
        let mut c = white_canvas(10, 10);
        stamp(&mut c, 4, 6, 0, shape, Color::black(), 10, 10);
        assert_eq!(count_color(&c, Color::black()), 1);
        assert_eq!(c.get_pixel(4, 6), Color::black());
    }
}

#[test]
fn stamp_at_origin_is_clamped() {
    let mut sq = white_canvas(100, 80);
    stamp(&mut sq, 0, 0, 10, BrushShape::Square, Color::black(), 100, 80);
    assert_eq!(count_color(&sq, Color::black()), 121);
    assert_eq!(sq.get_pixel(10, 10), Color::black());
    assert_eq!(sq.get_pixel(11, 0), Color::white());

    let mut ci = white_canvas(100, 80);
    stamp(&mut ci, 0, 0, 10, BrushShape::Circle, Color::black(), 100, 80);
    let mut expected = 0;
    for y in 0..80i64 {
        for x in 0..100i64 {
            let inside = x * x + y * y <= 100;
            if inside {
                expected += 1;
            }
            let want = if inside { Color::black() } else { Color::white() };
            assert_eq!(ci.get_pixel(x as u32, y as u32), want);
        }
    }
    assert_eq!(count_color(&ci, Color::black()), expected);
}

#[test]
fn stamp_outside_canvas_reenters_by_intersection() {
    let mut c = white_canvas(20, 20);
    stamp(&mut c, -3, 5, 4, BrushShape::Square, Color::black(), 20, 20);
    assert_eq!(count_color(&c, Color::black()), 2 * 9);
    let mut far = white_canvas(20, 20);
    let rect = stamp(&mut far, -100, -100, 3, BrushShape::Circle, Color::black(), 20, 20);
    assert_eq!(count_color(&far, Color::black()), 0);
    assert_eq!(rect, DirtyRect { left: 0, top: 0, right: 0, bottom: 0 });
}

#[test]
fn canvas_coord_scales_and_truncates_toward_zero() {
    assert_eq!(to_canvas_coord(400, 800, 800), 400);
    assert_eq!(to_canvas_coord(3, 400, 800), 1);
    assert_eq!(to_canvas_coord(-5, 400, 800), -2);
    assert_eq!(to_canvas_coord(7, 1600, 800), 14);
}

#[test]
fn dirty_rect_covers_stamped_box() {
    assert_eq!(
        dirty_rect(100, 100, 5, 800, 600, 800, 600),
        DirtyRect { left: 95, top: 95, right: 106, bottom: 106 }
    );
    assert_eq!(
        dirty_rect(100, 50, 5, 400, 300, 800, 600),
        DirtyRect { left: 190, top: 90, right: 212, bottom: 112 }
    );
    assert_eq!(
        dirty_rect(1, 1, 5, 3, 3, 10, 10),
        DirtyRect { left: 0, top: 0, right: 10, bottom: 10 }
    );
}

#[test]
fn background_color_fills_raw_buffer() {
    let mut s = default_state();
    s.draw_on_canvas(10, 10);
    let gray = Color::opaque(128, 128, 128);
    s.set_background_color(gray);
    assert_eq!(s.background_color, gray);
    let raw = s.canvas.to_raw_buffer();
    assert_eq!(raw.len(), 800 * 600 * 4);
    for px in raw.chunks(4) {
        assert_eq!(px, &[128, 128, 128, 255]);
    }
    let clear = Color::new(0, 0, 0, 0);
    s.set_background_color(clear);
    assert!(s.canvas.to_raw_buffer().iter().all(|b| *b == 0));
}

#[test]
fn brush_size_input_commits_only_positive_numbers() {
    let mut s = default_state();
    s.brush_size = 7;
    s.commit_brush_size_input("0");
    assert_eq!(s.brush_size, 7);
    s.commit_brush_size_input("abc");
    assert_eq!(s.brush_size, 7);
    s.commit_brush_size_input("12");
    assert_eq!(s.brush_size, 12);
    s.commit_brush_size_input("-3");
    assert_eq!(s.brush_size, 12);
    s.commit_brush_size_input("");
    assert_eq!(s.brush_size, 12);
    s.commit_brush_size_input("4294967296");
    assert_eq!(s.brush_size, 12);
    s.commit_brush_size_input("+9");
    assert_eq!(s.brush_size, 9);
}

#[test]
fn parsing_helpers() {
    assert_eq!(next_brush_size(5, "30"), 30);
    assert_eq!(next_brush_size(5, " 30"), 5);
    assert_eq!(channel_value("200"), 200);
    assert_eq!(channel_value("256"), 0);
    assert_eq!(channel_value("x1"), 0);
    assert_eq!(channel_value("007"), 7);
}

#[test]
fn color_input_composes_opaque_color() {
    let mut s = default_state();
    s.set_color_channel_text(ColorChannel::Red, "255".to_string());
    s.set_color_channel_text(ColorChannel::Green, "300".to_string());
    s.set_color_channel_text(ColorChannel::Blue, "abc".to_string());
    s.commit_color_input();
    assert_eq!(s.brush_color, Color::new(255, 0, 0, 255));
    s.set_color_channel_text(ColorChannel::Green, "69".to_string());
    s.set_color_channel_text(ColorChannel::Blue, "+19".to_string());
    s.commit_color_input();
    assert_eq!(s.brush_color, Color::new(255, 69, 19, 255));
}

#[test]
fn palette_color_sets_brush_and_fields() {
    let mut s = default_state();
    s.select_palette_color(Color::opaque(139, 69, 19));
    assert_eq!(s.brush_color, Color::opaque(139, 69, 19));
    assert_eq!(s.color_r_input, "139");
    assert_eq!(s.color_g_input, "69");
    assert_eq!(s.color_b_input, "19");
    s.commit_color_input();
    assert_eq!(s.brush_color, Color::opaque(139, 69, 19));
}

#[test]
fn new_state_defaults() {
    let s = default_state();
    assert_eq!(s.brush_size, 5);
    assert_eq!(s.brush_size_input, "5");
    assert_eq!(s.color_r_input, "0");
    assert_eq!(s.brush_color, Color::black());
    assert_eq!(s.background_color, Color::white());
    assert_eq!(s.current_tool, Tool::Brush);
    assert_eq!(s.brush_shape, BrushShape::Square);
    assert!(!s.is_drawing);
}

#[test]
fn eraser_restores_background_not_prior_value() {
    let mut s = default_state();
    let gray = Color::opaque(128, 128, 128);
    s.background_color = gray;
    s.brush_color = Color::opaque(0, 255, 0);
    s.brush_size = 1;
    s.draw_on_canvas(50, 60);
    assert_eq!(s.canvas.get_pixel(50, 60), Color::opaque(0, 255, 0));
    s.select_tool(Tool::Eraser);
    s.draw_on_canvas(50, 60);
    assert_eq!(s.canvas.get_pixel(50, 60), gray);
    assert_eq!(s.canvas.get_pixel(52, 60), Color::white());
}

#[test]
fn end_to_end_square_stamp_and_png_round_trip() {
    let mut s = default_state();
    assert_eq!(s.brush_color, Color::black());
    let rect = s.begin_stroke(100, 100);
    s.end_stroke();
    assert_eq!(rect, DirtyRect { left: 95, top: 95, right: 106, bottom: 106 });
    for y in 95..=105 {
        for x in 95..=105 {
            assert_eq!(s.canvas.get_pixel(x, y), Color::black());
        }
    }
    assert_eq!(s.canvas.get_pixel(80, 80), Color::white());
    assert_eq!(count_color(&s.canvas, Color::black()), 121);

    let raw = s.canvas.to_raw_buffer().clone();
    let mut png: Vec<u8> = Vec::new();
    image::codecs::png::PngEncoder::new(&mut png)
        .write_image(&raw, 800, 600, image::ColorType::Rgba8)
        .unwrap();
    let decoded = image::load_from_memory_with_format(&png, image::ImageFormat::Png)
        .unwrap()
        .to_rgba8();
    assert_eq!(decoded.width(), 800);
    assert_eq!(decoded.height(), 600);
    assert_eq!(decoded.as_raw(), &raw);
}

#[test]
fn stroke_only_stamps_while_drawing() {
    let mut s = default_state();
    assert!(s.continue_stroke(10, 10).is_none());
    assert_eq!(count_color(&s.canvas, Color::black()), 0);
    s.begin_stroke(10, 10);
    assert!(s.is_drawing);
    assert!(s.continue_stroke(30, 10).is_some());
    s.end_stroke();
    assert!(!s.is_drawing);
    assert!(s.continue_stroke(60, 10).is_none());
    assert_eq!(count_color(&s.canvas, Color::black()), 2 * 121);
}

#[test]
fn clear_canvas_ignores_background() {
    let mut s = default_state();
    s.set_background_color(Color::opaque(1, 2, 3));
    s.clear_canvas();
    assert_eq!(count_color(&s.canvas, Color::white()), 800 * 600);
    assert_eq!(s.background_color, Color::opaque(1, 2, 3));
}

#[test]
fn canvas_controller_throttles_frames() {
    let mut s = default_state();
    s.select_brush_shape(BrushShape::Circle);
    let mut ctl = CanvasController::new(0);
    let r = ctl.event(&mut s, PointerEvent::Down { x: 10, y: 10 }, 20);
    assert!(r.dirty.is_some());
    assert!(r.request_frame);
    assert_eq!(ctl.last_paint_ms, 20);
    let r = ctl.event(&mut s, PointerEvent::Move { x: 12, y: 10 }, 30);
    assert!(r.dirty.is_some());
    assert!(!r.request_frame);
    assert_eq!(ctl.last_paint_ms, 20);
    let r = ctl.event(&mut s, PointerEvent::Up, 100);
    assert!(r.dirty.is_none());
    assert!(!r.request_frame);
    assert!(!s.is_drawing);
    let r = ctl.event(&mut s, PointerEvent::Move { x: 40, y: 40 }, 200);
    assert!(r.dirty.is_none());
    assert_eq!(s.canvas.get_pixel(40, 40), Color::white());
    assert_eq!(s.canvas.get_pixel(10, 15), Color::black());
    assert_eq!(s.canvas.get_pixel(10, 16), Color::white());
}

#[test]
fn text_box_controller_commits_its_fields() {
    let mut s = default_state();
    s.set_brush_size_text("9".to_string());
    s.set_color_channel_text(ColorChannel::Blue, "200".to_string());
    let colors = TextBoxController::new(false, false, false, true);
    colors.on_enter(&mut s);
    assert_eq!(s.brush_size, 5);
    assert_eq!(s.brush_color, Color::opaque(0, 0, 200));
    let size = TextBoxController::new(true, false, false, false);
    size.on_enter(&mut s);
    assert_eq!(s.brush_size, 9);
}
