//! The interaction state machine: pointer and control events, routed by
//! mode to dragging the canvas or to painting a stroke on it.

use vstd::prelude::*;
use crate::brush::{stamp_segment, stamped};
use crate::canvas::{CanvasView, RasterCanvas};
use crate::color::Rgba;
use crate::geometry::{
    floor_div, lemma_quotient_bounds, screen_to_bitmap, spec_screen_to_bitmap,
    translate_mouse_center, CanvasRect, Sample, ScreenPoint, MAX_SCALE, MIN_SCALE, PLANE_LIMIT,
    UNIT,
};
use crate::line::{in_line_range, BitmapPoint, LINE_LIMIT};

verus! {

/// The smallest brush diameter, one pixel.
pub const MIN_BRUSH: u32 = 256;

/// The largest brush diameter, one hundred pixels.
pub const MAX_BRUSH: u32 = 25600;

/// What a drag of the pointer does.
#[derive(Clone, Copy, Debug, PartialEq, Eq, Structural)]
pub enum Mode {
    /// The canvas follows the pointer.
    Move,
    /// The brush paints along the pointer's path.
    Paint,
}

/// The state of the stroke: none under way, or one whose last sample fell
/// on the given pixel.
#[derive(Clone, Copy, Debug, PartialEq, Eq, Structural)]
pub enum StrokeController {
    Idle,
    Stroking(BitmapPoint),
}

/// The settings and the drag state shared by all windows.
#[derive(Clone, Copy, Debug, PartialEq, Eq, Structural)]
pub struct InteractionState {
    /// The scale factor, in fixed point.
    pub scale: i64,
    /// The brush diameter, in fixed point.
    pub brush_size: u32,
    pub mode: Mode,
    /// Where the pointer was pressed, relative to the centre of the canvas.
    pub drag_offset: Option<ScreenPoint>,
    /// Whether the button is down.
    pub selected: bool,
}

/// The editor: the canvas, where it is shown, and the interaction state.
pub struct Editor {
    pub canvas: RasterCanvas,
    pub rect: CanvasRect,
    pub state: InteractionState,
    pub stroke: StrokeController,
}

/// The mathematical value of an editor.
pub struct EditorView {
    pub canvas: CanvasView,
    pub rect: CanvasRect,
    pub state: InteractionState,
    pub stroke: StrokeController,
}

/// The scale nearest to `v` between one and one hundred.
pub open spec fn clamp_scale(v: int) -> int {
    if v < MIN_SCALE {
        MIN_SCALE as int
    } else if v > MAX_SCALE {
        MAX_SCALE as int
    } else {
        v
    }
}

/// The brush diameter nearest to `v` between one and one hundred pixels.
pub open spec fn clamp_brush(v: int) -> int {
    if v < MIN_BRUSH {
        MIN_BRUSH as int
    } else if v > MAX_BRUSH {
        MAX_BRUSH as int
    } else {
        v
    }
}

/// The scale after the wheel turned by `delta`: a tenth of the scale is
/// added for each whole of `delta`, and the sum is kept between one and
/// one hundred.
pub open spec fn scrolled_scale(scale: int, delta: int) -> int {
    clamp_scale(scale + (delta * scale) / (10 * UNIT))
}

/// What reaches the editor from the pointer and from the controls.
#[derive(Clone, Copy, Debug, PartialEq, Eq, Structural)]
pub enum Event {
    /// The primary button went down with the pointer at the given point.
    Pressed(ScreenPoint),
    /// The primary button went up.
    Released,
    /// The pointer moved to the given point.
    Moved(ScreenPoint),
    /// The wheel turned by the given amount, in fixed point.
    Scrolled(i64),
    /// The scale control was set to the given value, in fixed point.
    ScaleSet(i64),
    /// The brush size control was set to the given value, in fixed point.
    BrushSizeSet(i64),
    /// A mode button was clicked.
    ModeSet(Mode),
}

/// What the controls of the workbench report in one pass over them.
#[derive(Clone, Copy, Debug, PartialEq, Eq, Structural)]
pub struct Controls {
    /// The value the scale slider was moved to, in fixed point, if it was
    /// moved.
    pub scale: Option<i64>,
    /// The value the brush size slider was moved to, in fixed point, if it
    /// was moved.
    pub brush_size: Option<i64>,
    /// Whether the button for move mode was clicked.
    pub move_clicked: bool,
    /// Whether the button for paint mode was clicked.
    pub paint_clicked: bool,
}

impl Event {
    /// Whether the position the event carries, if any, is in the plane.
    pub open spec fn in_plane(self) -> bool {
        match self {
            Event::Pressed(p) => p.in_plane(),
            Event::Moved(p) => p.in_plane(),
            _ => true,
        }
    }
}

impl StrokeController {
    /// The canvas after the stroke, if one is under way, was continued to
    /// the sample `to` with a brush of diameter `d`.
    pub open spec fn painted(self, canvas: CanvasView, to: Sample, d: u32) -> CanvasView {
        match self {
            StrokeController::Stroking(last) => stamped(canvas, last, to, d),
            StrokeController::Idle => canvas,
        }
    }

    /// The state after a sample was taken at `to`: a stroke under way has
    /// it as its last sample, and none is started.
    pub open spec fn sampled(self, to: Sample) -> StrokeController {
        match self {
            StrokeController::Stroking(_) => StrokeController::Stroking(to.cell),
            StrokeController::Idle => StrokeController::Idle,
        }
    }

    /// Starts a stroke with its first sample on the pixel `at`. Nothing is
    /// painted yet.
    pub fn press(&mut self, at: BitmapPoint)
        ensures
            *final(self) == StrokeController::Stroking(at),
    {
        *self = StrokeController::Stroking(at);
    }

    /// Ends the stroke. Nothing is painted.
    pub fn release(&mut self)
        ensures
            *final(self) == StrokeController::Idle,
    {
        *self = StrokeController::Idle;
    }

    /// Takes the sample `to`. With a stroke under way, the segment from
    /// the last sample to this one is painted with a brush of diameter `d`,
    /// and this one becomes the last. With none, nothing happens.
    pub fn sample(&mut self, canvas: &mut RasterCanvas, to: &Sample, d: u32)
        requires
            old(canvas).wf(),
            in_line_range(to.cell),
            match *old(self) {
                StrokeController::Stroking(last) => in_line_range(last),
                StrokeController::Idle => true,
            },
            d >= UNIT,
        ensures
            final(canvas).wf(),
            final(canvas)@ == old(self).painted(old(canvas)@, *to, d),
            final(canvas)@.width == old(canvas)@.width,
            final(canvas)@.height == old(canvas)@.height,
            *final(self) == old(self).sampled(*to),
    {
        match *self {
            StrokeController::Stroking(last) => {
                stamp_segment(canvas, last, to, d);
                *self = StrokeController::Stroking(to.cell);
            },
            StrokeController::Idle => {},
        }
    }
}

impl InteractionState {
    /// The settings at the start: scale 1.75, a brush of one pixel, move
    /// mode, the button up.
    pub open spec fn spec_new() -> InteractionState {
        InteractionState {
            scale: 448,
            brush_size: 256,
            mode: Mode::Move,
            drag_offset: None,
            selected: false,
        }
    }

    #[verifier::when_used_as_spec(spec_new)]
    pub fn new() -> (s: InteractionState)
        ensures
            s == InteractionState::spec_new(),
            s.wf(),
    {
        InteractionState {
            scale: 448,
            brush_size: 256,
            mode: Mode::Move,
            drag_offset: None,
            selected: false,
        }
    }

    /// Scale and brush size are within their ranges, and a drag offset is
    /// kept exactly while the button is down.
    pub open spec fn wf(self) -> bool {
        &&& MIN_SCALE <= self.scale <= MAX_SCALE
        &&& MIN_BRUSH <= self.brush_size <= MAX_BRUSH
        &&& self.selected == self.drag_offset.is_some()
        &&& match self.drag_offset {
            Some(o) => -2 * PLANE_LIMIT <= o.x <= 2 * PLANE_LIMIT && -2 * PLANE_LIMIT <= o.y <= 2
                * PLANE_LIMIT,
            None => true,
        }
    }
}

impl EditorView {
    /// The canvas is sound and small enough for line walks, the settings
    /// are sound, the rectangle has the size of the bitmap at the scale,
    /// and a stroke is under way only while the button is down, with its
    /// last sample on the canvas.
    pub open spec fn wf(self) -> bool {
        &&& self.canvas.wf()
        &&& self.canvas.width <= LINE_LIMIT
        &&& self.canvas.height <= LINE_LIMIT
        &&& self.state.wf()
        &&& self.rect.centre.in_plane()
        &&& self.rect.width == self.canvas.width * self.state.scale
        &&& self.rect.height == self.canvas.height * self.state.scale
        &&& match self.stroke {
            StrokeController::Stroking(c) => self.state.selected && self.canvas.contains(
                c.x as int,
                c.y as int,
            ),
            StrokeController::Idle => true,
        }
    }

    /// The sample that the screen point `p` gives on this editor's canvas.
    pub open spec fn sample_at(self, p: ScreenPoint) -> Sample {
        spec_screen_to_bitmap(
            p,
            self.rect,
            self.state.scale,
            self.canvas.width as u32,
            self.canvas.height as u32,
        )
    }

    /// The canvas rectangle for the scale `scale`, its centre kept.
    pub open spec fn rect_at(self, scale: int) -> CanvasRect {
        CanvasRect {
            centre: self.rect.centre,
            width: (self.canvas.width * scale) as i64,
            height: (self.canvas.height * scale) as i64,
        }
    }

    /// After the button went down at `p`: the drag starts there, and in
    /// paint mode a press on the canvas starts a stroke with `p` as its
    /// first sample. The canvas is not painted.
    pub open spec fn pressed(self, p: ScreenPoint) -> EditorView {
        EditorView {
            state: InteractionState {
                selected: true,
                drag_offset: Some(translate_mouse_center(p, self.rect)),
                ..self.state
            },
            stroke: if self.state.mode == Mode::Paint && self.rect.contains(p) {
                StrokeController::Stroking(self.sample_at(p).cell)
            } else {
                self.stroke
            },
            ..self
        }
    }

    /// After the button went up: drag and stroke are over.
    pub open spec fn released(self) -> EditorView {
        EditorView {
            state: InteractionState { selected: false, drag_offset: None, ..self.state },
            stroke: StrokeController::Idle,
            ..self
        }
    }

    /// Where the centre of the canvas goes when the pointer, pressed at
    /// the offset `o` from it, has moved to `p`.
    pub open spec fn drag_target(p: ScreenPoint, o: ScreenPoint) -> (int, int) {
        (p.x - o.x, p.y - o.y)
    }

    /// After the pointer moved to `p`. In move mode, a pressed pointer
    /// carries the canvas with it, unless that would take its centre out of
    /// the plane. In paint mode, a stroke under way is continued to `p` if
    /// `p` lies on the canvas: the segment from the last sample is painted,
    /// and `p` becomes the last sample. Everything else stays as it is.
    pub open spec fn moved(self, p: ScreenPoint) -> EditorView {
        match self.state.mode {
            Mode::Move => match self.state.drag_offset {
                Some(o) => {
                    let t = Self::drag_target(p, o);
                    if -PLANE_LIMIT <= t.0 <= PLANE_LIMIT && -PLANE_LIMIT <= t.1 <= PLANE_LIMIT {
                        EditorView {
                            rect: CanvasRect {
                                centre: ScreenPoint { x: t.0 as i64, y: t.1 as i64 },
                                ..self.rect
                            },
                            ..self
                        }
                    } else {
                        self
                    }
                },
                None => self,
            },
            Mode::Paint => if self.rect.contains(p) {
                let s = self.sample_at(p);
                EditorView {
                    canvas: self.stroke.painted(self.canvas, s, self.state.brush_size),
                    stroke: self.stroke.sampled(s),
                    ..self
                }
            } else {
                self
            },
        }
    }

    /// After the scale was set to `v`, kept between one and one hundred:
    /// the rectangle takes the size of the bitmap at the new scale, and
    /// keeps its centre.
    pub open spec fn with_scale(self, v: int) -> EditorView {
        EditorView {
            state: InteractionState { scale: clamp_scale(v) as i64, ..self.state },
            rect: self.rect_at(clamp_scale(v)),
            ..self
        }
    }

    /// After the wheel turned by `delta`.
    pub open spec fn scrolled(self, delta: int) -> EditorView {
        self.with_scale(scrolled_scale(self.state.scale as int, delta))
    }

    /// After the brush diameter was set to `v`, kept between one and one
    /// hundred pixels.
    pub open spec fn with_brush_size(self, v: int) -> EditorView {
        EditorView {
            state: InteractionState { brush_size: clamp_brush(v) as u32, ..self.state },
            ..self
        }
    }

    /// After the mode was set to `mode`.
    pub open spec fn with_mode(self, mode: Mode) -> EditorView {
        EditorView { state: InteractionState { mode, ..self.state }, ..self }
    }

    /// After one pass over the controls: the sliders that were moved set
    /// scale and brush size, then a click on the move button sets move
    /// mode, then a click on the paint button sets paint mode.
    pub open spec fn updated(self, c: Controls) -> EditorView {
        let scaled = match c.scale {
            Some(v) => self.with_scale(v as int),
            None => self,
        };
        let sized = match c.brush_size {
            Some(v) => scaled.with_brush_size(v as int),
            None => scaled,
        };
        let moving = if c.move_clicked {
            sized.with_mode(Mode::Move)
        } else {
            sized
        };
        if c.paint_clicked {
            moving.with_mode(Mode::Paint)
        } else {
            moving
        }
    }

    /// After the event `e`.
    pub open spec fn after(self, e: Event) -> EditorView {
        match e {
            Event::Pressed(p) => self.pressed(p),
            Event::Released => self.released(),
            Event::Moved(p) => self.moved(p),
            Event::Scrolled(delta) => self.scrolled(delta as int),
            Event::ScaleSet(v) => self.with_scale(v as int),
            Event::BrushSizeSet(v) => self.with_brush_size(v as int),
            Event::ModeSet(mode) => self.with_mode(mode),
        }
    }
}

impl View for Editor {
    type V = EditorView;

    open spec fn view(&self) -> EditorView {
        EditorView {
            canvas: self.canvas@,
            rect: self.rect,
            state: self.state,
            stroke: self.stroke,
        }
    }
}

impl Default for Editor {
    /// An editor with a fresh canvas of 256 by 256 pixels.
    fn default() -> (e: Editor)
        ensures
            e.wf(),
            e@.canvas.width == 256,
            e@.canvas.height == 256,
            forall|x: int, y: int|
                e@.canvas.contains(x, y) ==> #[trigger] e@.canvas.pixels[(x, y)]
                    == Rgba::white(),
            e.rect.centre == (ScreenPoint { x: 0, y: 0 }),
            e.state == InteractionState::new(),
            e.stroke == StrokeController::Idle,
    {
        Editor::new(256, 256)
    }
}

impl Editor {
    /// Whether the editor's value is sound, as that of every editor made
    /// by `new` and changed by its methods is.
    pub open spec fn wf(&self) -> bool {
        self@.wf()
    }

    /// An editor with a fresh white canvas of the given size, centred on
    /// the origin of the screen at scale 1.75, with a brush of one pixel,
    /// in move mode, the button up.
    pub fn new(width: u32, height: u32) -> (e: Editor)
        requires
            1 <= width <= LINE_LIMIT,
            1 <= height <= LINE_LIMIT,
            4 * width * height <= isize::MAX,
        ensures
            e.wf(),
            e@.canvas.width == width,
            e@.canvas.height == height,
            forall|x: int, y: int|
                e@.canvas.contains(x, y) ==> #[trigger] e@.canvas.pixels[(x, y)]
                    == Rgba::white(),
            e.rect.centre == (ScreenPoint { x: 0, y: 0 }),
            e.state == InteractionState::new(),
            e.stroke == StrokeController::Idle,
    {
        let canvas = RasterCanvas::new(width, height);
        let state = InteractionState::new();
        let rect = CanvasRect::placed(ScreenPoint { x: 0, y: 0 }, width, height, state.scale);
        Editor { canvas, rect, state, stroke: StrokeController::Idle }
    }

    /// The primary button went down at `p`.
    pub fn press(&mut self, p: ScreenPoint)
        requires
            old(self).wf(),
            p.in_plane(),
        ensures
            final(self).wf(),
            final(self)@ == old(self)@.pressed(p),
            final(self)@.canvas == old(self)@.canvas,
    {
        self.state.selected = true;
        self.state.drag_offset = Some(translate_mouse_center(p, self.rect));
        let on_canvas = self.rect.contains_point(p);
        if on_canvas {
            match self.state.mode {
                Mode::Paint => {
                    let s = screen_to_bitmap(
                        p,
                        &self.rect,
                        self.state.scale,
                        self.canvas.width(),
                        self.canvas.height(),
                    );
                    self.stroke.press(s.cell);
                },
                Mode::Move => {},
            }
        }
    }

    /// The primary button went up.
    pub fn release(&mut self)
        requires
            old(self).wf(),
        ensures
            final(self).wf(),
            final(self)@ == old(self)@.released(),
            final(self)@.canvas == old(self)@.canvas,
    {
        self.state.selected = false;
        self.state.drag_offset = None;
        self.stroke.release();
    }

    /// The pointer moved to `p`.
    pub fn pointer_moved(&mut self, p: ScreenPoint)
        requires
            old(self).wf(),
            p.in_plane(),
        ensures
            final(self).wf(),
            final(self)@ == old(self)@.moved(p),
            old(self).state.mode == Mode::Move ==> final(self)@.canvas == old(self)@.canvas,
            old(self).stroke == StrokeController::Idle ==> final(self)@.canvas == old(self)@.canvas,
    {
        match self.state.mode {
            Mode::Move => {
                match self.state.drag_offset {
                    Some(o) => {
                        let target = ScreenPoint { x: p.x - o.x, y: p.y - o.y };
                        if target.is_in_plane() {
                            self.rect.centre = target;
                        }
                    },
                    None => {},
                }
            },
            Mode::Paint => {
                if self.rect.contains_point(p) {
                    let s = screen_to_bitmap(
                        p,
                        &self.rect,
                        self.state.scale,
                        self.canvas.width(),
                        self.canvas.height(),
                    );
                    self.stroke.sample(&mut self.canvas, &s, self.state.brush_size);
                }
            },
        }
    }

    /// Sets the scale to `v`, kept between one and one hundred, and
    /// resizes the canvas rectangle about its centre.
    pub fn set_scale(&mut self, v: i64)
        requires
            old(self).wf(),
        ensures
            final(self).wf(),
            final(self)@ == old(self)@.with_scale(v as int),
            final(self)@.canvas == old(self)@.canvas,
            final(self).rect.centre == old(self).rect.centre,
            final(self).state.scale == clamp_scale(v as int),
            final(self).rect.width == final(self)@.canvas.width * clamp_scale(v as int),
            final(self).rect.height == final(self)@.canvas.height * clamp_scale(v as int),
    {
        let scale: i64 = if v < MIN_SCALE {
            MIN_SCALE
        } else if v > MAX_SCALE {
            MAX_SCALE
        } else {
            v
        };
        self.state.scale = scale;
        self.rect = CanvasRect::placed(
            self.rect.centre,
            self.canvas.width(),
            self.canvas.height(),
            scale,
        );
    }

    /// The wheel turned by `delta`, in fixed point.
    pub fn scroll(&mut self, delta: i64)
        requires
            old(self).wf(),
        ensures
            final(self).wf(),
            final(self)@ == old(self)@.scrolled(delta as int),
            final(self)@.canvas == old(self)@.canvas,
            final(self).rect.centre == old(self).rect.centre,
    {
        let scale = self.state.scale;
        let next: i64 = if delta >= 256000 {
            proof {
                assert(delta * scale >= 256000 * 256) by (nonlinear_arith)
                    requires
                        delta >= 256000,
                        scale >= 256,
                ;
                vstd::arithmetic::div_mod::lemma_div_is_ordered(
                    256000int * 256,
                    delta * scale,
                    10 * UNIT,
                );
            }
            MAX_SCALE
        } else if delta <= -2560 {
            proof {
                assert(delta * scale <= 2560 * (-scale)) by (nonlinear_arith)
                    requires
                        delta <= -2560,
                        scale >= 256,
                ;
                vstd::arithmetic::div_mod::lemma_div_is_ordered(
                    delta * scale,
                    2560 * (-scale),
                    10 * UNIT,
                );
                vstd::arithmetic::div_mod::lemma_div_multiples_vanish(-scale, 10 * UNIT);
            }
            MIN_SCALE
        } else {
            assert(-2560 * 25600 <= delta * scale <= 256000 * 25600) by (nonlinear_arith)
                requires
                    -2560 < delta < 256000,
                    256 <= scale <= 25600,
            ;
            proof {
                lemma_quotient_bounds((delta * scale) as int, 10 * UNIT, 256000int * 25600);
            }
            scale + floor_div(delta * scale, 10 * UNIT)
        };
        self.set_scale(next);
    }

    /// Sets the brush diameter to `v`, kept between one and one hundred
    /// pixels.
    pub fn set_brush_size(&mut self, v: i64)
        requires
            old(self).wf(),
        ensures
            final(self).wf(),
            final(self)@ == old(self)@.with_brush_size(v as int),
            final(self)@.canvas == old(self)@.canvas,
    {
        self.state.brush_size = if v < MIN_BRUSH as i64 {
            MIN_BRUSH
        } else if v > MAX_BRUSH as i64 {
            MAX_BRUSH
        } else {
            v as u32
        };
    }

    /// Sets the mode. Nothing else changes: what was painted stays, and a
    /// drag or stroke under way goes on under the new mode.
    pub fn set_mode(&mut self, mode: Mode)
        requires
            old(self).wf(),
        ensures
            final(self).wf(),
            final(self)@ == old(self)@.with_mode(mode),
            final(self)@.canvas == old(self)@.canvas,
            final(self).rect == old(self).rect,
            final(self).stroke == old(self).stroke,
    {
        self.state.mode = mode;
    }

    /// Takes one event. Only a move in paint mode, with a stroke under
    /// way, paints.
    pub fn handle(&mut self, e: Event)
        requires
            old(self).wf(),
            e.in_plane(),
        ensures
            final(self).wf(),
            final(self)@ == old(self)@.after(e),
            !(e is Moved) ==> final(self)@.canvas == old(self)@.canvas,
            old(self).state.mode == Mode::Move ==> final(self)@.canvas == old(self)@.canvas,
            old(self).stroke == StrokeController::Idle ==> final(self)@.canvas == old(self)@.canvas,
    {
        match e {
            Event::Pressed(p) => self.press(p),
            Event::Released => self.release(),
            Event::Moved(p) => self.pointer_moved(p),
            Event::Scrolled(delta) => self.scroll(delta),
            Event::ScaleSet(v) => self.set_scale(v),
            Event::BrushSizeSet(v) => self.set_brush_size(v),
            Event::ModeSet(mode) => self.set_mode(mode),
        }
    }

    /// The diameter on screen of the ring that shows the brush under the
    /// pointer: the brush diameter times the scale, in paint mode.
    pub fn cursor_ring(&self) -> (ring: Option<i64>)
        requires
            self.wf(),
        ensures
            ring == (if self.state.mode == Mode::Paint {
                Some(((self.state.brush_size * self.state.scale) / (UNIT as int)) as i64)
            } else {
                None
            }),
    {
        match self.state.mode {
            Mode::Paint => {
                assert(0 <= self.state.brush_size * self.state.scale <= 25600 * 25600)
                    by (nonlinear_arith)
                    requires
                        0 <= self.state.brush_size <= 25600,
                        0 <= self.state.scale <= 25600,
                ;
                proof {
                    lemma_quotient_bounds(
                        self.state.brush_size * self.state.scale,
                        UNIT as int,
                        25600int * 25600,
                    );
                }
                Some(floor_div(self.state.brush_size as i64 * self.state.scale, UNIT))
            },
            Mode::Move => None,
        }
    }
}

/// A change of mode touches nothing but the mode: what was painted stays
/// on the canvas, and rectangle, stroke, drag, scale and brush size are as
/// before. Only later events go by the new mode: in move mode, no move of
/// the pointer paints.
pub proof fn lemma_mode_switch_keeps_the_canvas(v: EditorView, mode: Mode, p: ScreenPoint)
    ensures
        v.with_mode(mode).canvas == v.canvas,
        v.with_mode(mode).rect == v.rect,
        v.with_mode(mode).stroke == v.stroke,
        v.with_mode(mode).state == (InteractionState { mode, ..v.state }),
        v.with_mode(Mode::Move).moved(p).canvas == v.canvas,
        v.with_mode(Mode::Move).moved(p).stroke == v.stroke,
{
}

/// Takes what the controls report in one pass. The canvas, the stroke,
/// the drag and the centre of the rectangle stay as they are: what was
/// painted before a change of mode is not touched by it, and the new
/// settings bear on later events only.
pub fn update(editor: &mut Editor, controls: &Controls)
    requires
        old(editor).wf(),
    ensures
        final(editor).wf(),
        final(editor)@ == old(editor)@.updated(*controls),
        final(editor)@.canvas == old(editor)@.canvas,
        final(editor).stroke == old(editor).stroke,
        final(editor).state.selected == old(editor).state.selected,
        final(editor).state.drag_offset == old(editor).state.drag_offset,
        final(editor).rect.centre == old(editor).rect.centre,
        final(editor).state.scale == (match controls.scale {
            Some(v) => clamp_scale(v as int) as i64,
            None => old(editor).state.scale,
        }),
        controls.scale is None ==> final(editor).rect == old(editor).rect,
        final(editor).state.brush_size == (match controls.brush_size {
            Some(v) => clamp_brush(v as int) as u32,
            None => old(editor).state.brush_size,
        }),
        final(editor).state.mode == (if controls.paint_clicked {
            Mode::Paint
        } else if controls.move_clicked {
            Mode::Move
        } else {
            old(editor).state.mode
        }),
{
    match controls.scale {
        Some(v) => editor.set_scale(v),
        None => {},
    }
    match controls.brush_size {
        Some(v) => editor.set_brush_size(v),
        None => {},
    }
    if controls.move_clicked {
        editor.set_mode(Mode::Move);
    }
    if controls.paint_clicked {
        editor.set_mode(Mode::Paint);
    }
}

} // verus!
