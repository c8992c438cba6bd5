use pixel_paint::canvas::RasterCanvas;
use pixel_paint::color::Rgba;
use pixel_paint::geometry::{CanvasRect, Sample, ScreenPoint, PLANE_LIMIT};
use pixel_paint::interaction::{
    update, Controls, Editor, Event, InteractionState, Mode, StrokeController, MAX_BRUSH,
    MIN_BRUSH,
};
use pixel_paint::line::BitmapPoint;

const WHITE: Rgba = Rgba { r: 255, g: 255, b: 255, a: 255 };

fn sp(x: i64, y: i64) -> ScreenPoint {
    ScreenPoint { x, y }
}

fn grey(v: u8) -> Rgba {
    Rgba { r: v, g: v, b: v, a: 255 }
}

fn pixels(e: &Editor) -> Vec<Rgba> {
    e.canvas.to_vec()
}

fn painter(size: u32) -> Editor {
    let mut e = Editor::new(size, size);
    e.set_scale(256);
    e.set_brush_size(2560);
    e.set_mode(Mode::Paint);
    e
}

#[test]
fn new_editor_has_the_initial_settings() {
    let e = Editor::new(256, 256);
    assert_eq!(
        e.state,
        InteractionState {
            scale: 448,
            brush_size: 256,
            mode: Mode::Move,
            drag_offset: None,
            selected: false,
        }
    );
    assert_eq!(e.stroke, StrokeController::Idle);
    assert_eq!(e.rect, CanvasRect { centre: sp(0, 0), width: 256 * 448, height: 256 * 448 });
    assert_eq!((e.canvas.width(), e.canvas.height()), (256, 256));
    assert!(pixels(&e).iter().all(|p| *p == WHITE));
    assert_eq!((MIN_BRUSH, MAX_BRUSH), (256, 25600));
}

#[test]
fn press_alone_paints_nothing() {
    let mut e = painter(256);
    e.press(sp(0, 0));
    assert_eq!(e.stroke, StrokeController::Stroking(BitmapPoint { x: 128, y: 128 }));
    assert!(e.state.selected);
    assert_eq!(e.state.drag_offset, Some(sp(0, 0)));
    assert!(pixels(&e).iter().all(|p| *p == WHITE));
}

#[test]
fn first_move_after_a_press_paints_the_segment() {
    let mut e = painter(256);
    e.press(sp(0, 0));
    e.pointer_moved(sp(512, 0));
    assert_eq!(e.stroke, StrokeController::Stroking(BitmapPoint { x: 130, y: 128 }));
    assert_eq!(e.canvas.get_pixel(130, 128), Rgba::black(255));
    assert_eq!(e.canvas.get_pixel(129, 128), Rgba::black(255));
    assert_eq!(e.canvas.get_pixel(128, 128), Rgba::black(255));
    assert_eq!(e.canvas.get_pixel(129, 123), grey(35));
    assert_eq!(e.canvas.get_pixel(125, 128), grey(31));
    assert_eq!(e.canvas.get_pixel(130, 134), grey(95));
    assert_eq!(e.canvas.get_pixel(130, 136), WHITE);
    assert_eq!(e.canvas.get_pixel(140, 128), WHITE);
    assert_eq!(pixels(&e).iter().filter(|p| **p != WHITE).count(), 149);
}

#[test]
fn stroke_goes_on_from_the_last_sample() {
    let mut e = painter(64);
    e.press(sp(0, 0));
    e.pointer_moved(sp(256 * 4, 0));
    let after_first = pixels(&e);
    e.pointer_moved(sp(256 * 4, 256 * 6));
    assert_eq!(e.stroke, StrokeController::Stroking(BitmapPoint { x: 36, y: 26 }));
    assert_ne!(pixels(&e), after_first);
    assert_eq!(e.canvas.get_pixel(36, 26), Rgba::black(255));
    assert_eq!(e.canvas.get_pixel(36, 29), Rgba::black(255));
}

#[test]
fn release_ends_the_stroke_without_painting() {
    let mut e = painter(64);
    e.press(sp(0, 0));
    e.pointer_moved(sp(256 * 4, 0));
    let before = pixels(&e);
    e.release();
    assert_eq!(e.stroke, StrokeController::Idle);
    assert!(!e.state.selected);
    assert_eq!(e.state.drag_offset, None);
    assert_eq!(pixels(&e), before);
    e.pointer_moved(sp(0, 256 * 9));
    assert_eq!(pixels(&e), before);
    assert_eq!(e.stroke, StrokeController::Idle);
}

#[test]
fn move_without_a_press_paints_nothing() {
    let mut e = painter(64);
    e.pointer_moved(sp(0, 0));
    e.pointer_moved(sp(256 * 4, 0));
    assert_eq!(e.stroke, StrokeController::Idle);
    assert!(pixels(&e).iter().all(|p| *p == WHITE));
}

#[test]
fn press_outside_the_canvas_starts_no_stroke() {
    let mut e = painter(64);
    e.press(sp(256 * 33, 0));
    assert_eq!(e.stroke, StrokeController::Idle);
    assert!(e.state.selected);
    e.pointer_moved(sp(0, 0));
    e.pointer_moved(sp(256 * 4, 0));
    assert!(pixels(&e).iter().all(|p| *p == WHITE));
}

#[test]
fn move_outside_the_canvas_is_passed_over() {
    let mut e = painter(64);
    e.press(sp(0, 0));
    e.pointer_moved(sp(256 * 40, 0));
    assert_eq!(e.stroke, StrokeController::Stroking(BitmapPoint { x: 32, y: 32 }));
    assert!(pixels(&e).iter().all(|p| *p == WHITE));
    e.pointer_moved(sp(256 * 2, 0));
    assert_eq!(e.stroke, StrokeController::Stroking(BitmapPoint { x: 34, y: 32 }));
    assert_eq!(e.canvas.get_pixel(34, 32), Rgba::black(255));
}

#[test]
fn press_in_move_mode_starts_a_drag_and_no_stroke() {
    let mut e = Editor::new(64, 64);
    e.press(sp(100, -50));
    assert_eq!(e.stroke, StrokeController::Idle);
    assert!(e.state.selected);
    assert_eq!(e.state.drag_offset, Some(sp(100, -50)));
}

#[test]
fn drag_in_move_mode_carries_the_canvas() {
    let mut e = Editor::new(64, 64);
    let size = (e.rect.width, e.rect.height);
    e.press(sp(100, -50));
    e.pointer_moved(sp(1100, 950));
    assert_eq!(e.rect.centre, sp(1000, 1000));
    e.pointer_moved(sp(-900, -50));
    assert_eq!(e.rect.centre, sp(-1000, 0));
    assert_eq!((e.rect.width, e.rect.height), size);
    assert!(pixels(&e).iter().all(|p| *p == WHITE));
    e.release();
    e.pointer_moved(sp(7, 7));
    assert_eq!(e.rect.centre, sp(-1000, 0));
}

#[test]
fn drag_that_would_leave_the_plane_is_passed_over() {
    let mut e = Editor::new(64, 64);
    e.press(sp(-100, 0));
    e.pointer_moved(sp(PLANE_LIMIT, 0));
    assert_eq!(e.rect.centre, sp(0, 0));
    e.pointer_moved(sp(PLANE_LIMIT - 100, 5));
    assert_eq!(e.rect.centre, sp(PLANE_LIMIT, 5));
}

#[test]
fn painting_follows_the_dragged_canvas() {
    let mut e = Editor::new(64, 64);
    e.set_scale(256);
    e.press(sp(0, 0));
    e.pointer_moved(sp(256 * 100, 256 * 100));
    e.release();
    e.set_mode(Mode::Paint);
    e.set_brush_size(2560);
    e.press(sp(256 * 100, 256 * 100));
    assert_eq!(e.stroke, StrokeController::Stroking(BitmapPoint { x: 32, y: 32 }));
    e.pointer_moved(sp(256 * 101, 256 * 100));
    assert_eq!(e.canvas.get_pixel(33, 32), Rgba::black(255));
}

#[test]
fn scroll_from_one_to_two_doubles_the_rect_about_its_centre() {
    let mut e = Editor::new(256, 256);
    e.set_scale(256);
    e.press(sp(0, 0));
    e.pointer_moved(sp(777, -333));
    e.release();
    assert_eq!(e.rect, CanvasRect { centre: sp(777, -333), width: 65536, height: 65536 });
    e.scroll(2560);
    assert_eq!(e.state.scale, 512);
    assert_eq!(e.rect, CanvasRect { centre: sp(777, -333), width: 131072, height: 131072 });
}

#[test]
fn scroll_adds_a_tenth_of_the_scale_for_each_whole() {
    let mut e = Editor::new(16, 8);
    assert_eq!(e.state.scale, 448);
    e.scroll(256);
    assert_eq!(e.state.scale, 492);
    assert_eq!((e.rect.width, e.rect.height), (16 * 492, 8 * 492));
    e.scroll(-256);
    assert_eq!(e.state.scale, 442);
    e.scroll(-1);
    assert_eq!(e.state.scale, 441);
    e.scroll(0);
    assert_eq!(e.state.scale, 441);
}

#[test]
fn scroll_keeps_the_scale_between_one_and_one_hundred() {
    let mut e = Editor::new(16, 8);
    e.scroll(i64::MAX);
    assert_eq!(e.state.scale, 25600);
    e.scroll(256000);
    assert_eq!(e.state.scale, 25600);
    e.scroll(i64::MIN);
    assert_eq!(e.state.scale, 256);
    e.scroll(-2559);
    assert_eq!(e.state.scale, 256);
    e.scroll(255999);
    assert_eq!(e.state.scale, 25600);
    e.scroll(-2560);
    assert_eq!(e.state.scale, 256);
    e.scroll(256 * 985);
    assert_eq!(e.state.scale, 256 + 25216);
}

#[test]
fn set_scale_clamps_and_resizes() {
    let mut e = Editor::new(16, 8);
    e.set_scale(1000);
    assert_eq!(e.state.scale, 1000);
    assert_eq!(e.rect, CanvasRect { centre: sp(0, 0), width: 16000, height: 8000 });
    e.set_scale(0);
    assert_eq!(e.state.scale, 256);
    e.set_scale(i64::MIN);
    assert_eq!(e.state.scale, 256);
    e.set_scale(25601);
    assert_eq!(e.state.scale, 25600);
    assert_eq!(e.rect, CanvasRect { centre: sp(0, 0), width: 16 * 25600, height: 8 * 25600 });
}

#[test]
fn set_brush_size_clamps() {
    let mut e = Editor::new(16, 8);
    e.set_brush_size(2560);
    assert_eq!(e.state.brush_size, 2560);
    e.set_brush_size(255);
    assert_eq!(e.state.brush_size, 256);
    e.set_brush_size(-5);
    assert_eq!(e.state.brush_size, 256);
    e.set_brush_size(i64::MAX);
    assert_eq!(e.state.brush_size, 25600);
}

#[test]
fn switching_to_move_mid_stroke_leaves_the_canvas_as_it_is() {
    let mut e = painter(64);
    e.press(sp(0, 0));
    e.pointer_moved(sp(256 * 4, 0));
    let painted = pixels(&e);
    let centre = e.rect.centre;
    e.set_mode(Mode::Move);
    assert_eq!(pixels(&e), painted);
    assert_eq!(e.rect.centre, centre);
    assert_eq!(e.stroke, StrokeController::Stroking(BitmapPoint { x: 36, y: 32 }));
    e.pointer_moved(sp(256 * 10, 256 * 3));
    assert_eq!(pixels(&e), painted);
    assert_eq!(e.rect.centre, sp(256 * 10, 256 * 3));
    e.release();
    assert_eq!(pixels(&e), painted);
}

#[test]
fn switching_to_paint_mid_drag_paints_nothing_until_the_next_press() {
    let mut e = Editor::new(64, 64);
    e.set_scale(256);
    e.set_brush_size(2560);
    e.press(sp(0, 0));
    e.set_mode(Mode::Paint);
    e.pointer_moved(sp(256, 0));
    e.pointer_moved(sp(512, 0));
    assert!(pixels(&e).iter().all(|p| *p == WHITE));
    assert_eq!(e.rect.centre, sp(0, 0));
    e.release();
    e.press(sp(0, 0));
    e.pointer_moved(sp(512, 0));
    assert_eq!(e.canvas.get_pixel(34, 32), Rgba::black(255));
}

#[test]
fn cursor_ring_is_the_brush_at_the_scale_in_paint_mode() {
    let mut e = Editor::new(16, 8);
    assert_eq!(e.cursor_ring(), None);
    e.set_mode(Mode::Paint);
    assert_eq!(e.cursor_ring(), Some(448));
    e.set_brush_size(2560);
    assert_eq!(e.cursor_ring(), Some(4480));
    e.set_scale(257);
    e.set_brush_size(300);
    assert_eq!(e.cursor_ring(), Some(301));
}

#[test]
fn handle_does_what_the_single_calls_do() {
    let events = [
        Event::ScaleSet(256),
        Event::BrushSizeSet(2560),
        Event::ModeSet(Mode::Paint),
        Event::Pressed(sp(0, 0)),
        Event::Moved(sp(256 * 3, 256)),
        Event::Scrolled(512),
        Event::Moved(sp(-256 * 3, 256)),
        Event::ModeSet(Mode::Move),
        Event::Moved(sp(100, 100)),
        Event::Released,
    ];
    let mut a = Editor::new(64, 64);
    let mut b = Editor::new(64, 64);
    for &ev in &events {
        a.handle(ev);
        match ev {
            Event::Pressed(p) => b.press(p),
            Event::Released => b.release(),
            Event::Moved(p) => b.pointer_moved(p),
            Event::Scrolled(d) => b.scroll(d),
            Event::ScaleSet(v) => b.set_scale(v),
            Event::BrushSizeSet(v) => b.set_brush_size(v),
            Event::ModeSet(m) => b.set_mode(m),
        }
        assert_eq!(pixels(&a), pixels(&b));
        assert_eq!((a.rect, a.state, a.stroke), (b.rect, b.state, b.stroke));
    }
    assert_eq!(a.state.scale, 307);
    assert_eq!(a.rect.centre, sp(100, 100));
    assert!(pixels(&a).iter().any(|p| *p != WHITE));
}

#[test]
fn initial_settings() {
    let s = InteractionState::new();
    assert_eq!((s.scale, s.brush_size, s.mode), (448, 256, Mode::Move));
    assert_eq!((s.drag_offset, s.selected), (None, false));
}

#[test]
fn default_editor_has_a_canvas_of_256_by_256() {
    let e = Editor::default();
    assert_eq!((e.canvas.width(), e.canvas.height()), (256, 256));
    assert_eq!(e.state, InteractionState::new());
    assert_eq!(e.stroke, StrokeController::Idle);
    assert_eq!(e.rect, CanvasRect { centre: sp(0, 0), width: 256 * 448, height: 256 * 448 });
    assert!(pixels(&e).iter().all(|p| *p == WHITE));
}

#[test]
fn stroke_controller_paints_from_the_second_sample_on() {
    let mut canvas = RasterCanvas::new(32, 32);
    let mut stroke = StrokeController::Idle;
    let first = Sample { exact_x: 10 * 256, exact_y: 10 * 256, cell: BitmapPoint { x: 10, y: 10 } };
    let second = Sample { exact_x: 14 * 256, exact_y: 10 * 256, cell: BitmapPoint { x: 14, y: 10 } };
    stroke.sample(&mut canvas, &first, 2560);
    assert_eq!(stroke, StrokeController::Idle);
    assert_eq!(canvas.get_pixel(10, 10), WHITE);
    stroke.press(first.cell);
    assert_eq!(stroke, StrokeController::Stroking(first.cell));
    assert_eq!(canvas.get_pixel(10, 10), WHITE);
    stroke.sample(&mut canvas, &second, 2560);
    assert_eq!(stroke, StrokeController::Stroking(second.cell));
    assert_eq!(canvas.get_pixel(14, 10), Rgba::black(255));
    assert_eq!(canvas.get_pixel(10, 10), Rgba::black(255));
    assert_eq!(canvas.get_pixel(14, 16), grey(49));
    let painted = canvas.get_pixel(12, 10);
    stroke.release();
    assert_eq!(stroke, StrokeController::Idle);
    assert_eq!(canvas.get_pixel(12, 10), painted);
}

fn quiet() -> Controls {
    Controls { scale: None, brush_size: None, move_clicked: false, paint_clicked: false }
}

#[test]
fn update_without_a_change_leaves_the_editor_as_it_is() {
    let mut e = painter(64);
    e.press(sp(0, 0));
    e.pointer_moved(sp(256 * 4, 0));
    let before = (pixels(&e), e.rect, e.state, e.stroke);
    update(&mut e, &quiet());
    assert_eq!((pixels(&e), e.rect, e.state, e.stroke), before);
}

#[test]
fn update_with_a_click_on_move_changes_the_mode_only() {
    let mut e = painter(64);
    e.press(sp(256, 256));
    e.pointer_moved(sp(256 * 4, 0));
    let painted = pixels(&e);
    let (rect, state, stroke) = (e.rect, e.state, e.stroke);
    assert_eq!(stroke, StrokeController::Stroking(BitmapPoint { x: 36, y: 32 }));
    update(&mut e, &Controls { move_clicked: true, ..quiet() });
    assert_eq!(pixels(&e), painted);
    assert_eq!(e.state, InteractionState { mode: Mode::Move, ..state });
    assert_eq!(e.state.drag_offset, Some(sp(256, 256)));
    assert!(e.state.selected);
    assert_eq!((e.rect, e.stroke), (rect, stroke));
    e.pointer_moved(sp(256 * 9, 256));
    assert_eq!(pixels(&e), painted);
    assert_eq!(e.rect.centre, sp(256 * 8, 0));
}

#[test]
fn update_applies_sliders_and_then_the_buttons() {
    let mut e = Editor::new(16, 8);
    let all = Controls {
        scale: Some(512),
        brush_size: Some(100_000),
        move_clicked: true,
        paint_clicked: true,
    };
    update(&mut e, &all);
    assert_eq!(e.state.scale, 512);
    assert_eq!(e.state.brush_size, 25600);
    assert_eq!(e.state.mode, Mode::Paint);
    assert_eq!(e.rect, CanvasRect { centre: sp(0, 0), width: 16 * 512, height: 8 * 512 });
    update(&mut e, &Controls { scale: Some(0), paint_clicked: false, ..all });
    assert_eq!(e.state.scale, 256);
    assert_eq!(e.state.mode, Mode::Move);
    update(&mut e, &Controls { paint_clicked: true, ..quiet() });
    assert_eq!(e.state.mode, Mode::Paint);
    assert_eq!((e.state.scale, e.state.brush_size), (256, 25600));
}
