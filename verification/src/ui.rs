//! A small retained-mode widget layer: panels that can be dragged with the
//! pointer, and keep their state when the interface is rebuilt.

use vstd::prelude::*;
use crate::color::Rgba;

verus! {

/// Widget coordinates and sizes lie within this distance of zero, so that
/// their sums and differences fit in an `i32`.
pub const SPAN_LIMIT: i32 = 0x1000_0000;

/// A position, or a displacement, in whole window units.
#[derive(Clone, Copy, Debug, PartialEq, Eq, Structural)]
pub struct Point {
    pub x: i32,
    pub y: i32,
}

/// A width and a height.
#[derive(Clone, Copy, Debug, PartialEq, Eq, Structural)]
pub struct Size {
    pub width: i32,
    pub height: i32,
}

/// A rectangle, given by the corner with the smallest coordinates and the
/// size.
#[derive(Clone, Copy, Debug, PartialEq, Eq, Structural)]
pub struct Rect {
    pub origin: Point,
    pub size: Size,
}

impl Point {
    pub open spec fn wf(self) -> bool {
        -SPAN_LIMIT <= self.x <= SPAN_LIMIT && -SPAN_LIMIT <= self.y <= SPAN_LIMIT
    }

    /// Whether both coordinates lie within the limit.
    pub fn in_span(&self) -> (b: bool)
        ensures
            b == self.wf(),
    {
        -SPAN_LIMIT <= self.x && self.x <= SPAN_LIMIT && -SPAN_LIMIT <= self.y && self.y
            <= SPAN_LIMIT
    }
}

impl Size {
    pub open spec fn wf(self) -> bool {
        0 <= self.width <= SPAN_LIMIT && 0 <= self.height <= SPAN_LIMIT
    }
}

impl Rect {
    /// Whether the rectangle is one that a widget within the limits can
    /// occupy.
    pub open spec fn in_reach(self) -> bool {
        &&& -2 * SPAN_LIMIT <= self.origin.x <= 2 * SPAN_LIMIT
        &&& -2 * SPAN_LIMIT <= self.origin.y <= 2 * SPAN_LIMIT
        &&& self.size.wf()
    }

    /// Whether `p` lies in the rectangle: the edges at the origin belong to
    /// it, the opposite ones do not.
    pub open spec fn contains(self, p: Point) -> bool {
        &&& self.origin.x <= p.x < self.origin.x + self.size.width
        &&& self.origin.y <= p.y < self.origin.y + self.size.height
    }

    pub fn contains_point(&self, p: Point) -> (b: bool)
        ensures
            b == self.contains(p),
    {
        self.origin.x <= p.x && (p.x as i64) < self.origin.x as i64 + self.size.width as i64
            && self.origin.y <= p.y && (p.y as i64) < self.origin.y as i64
            + self.size.height as i64
    }
}

/// The pointer: where it is, and whether its left button is down.
#[derive(Clone, Copy, Debug, PartialEq, Eq, Structural)]
pub struct Mouse {
    pub point: Point,
    pub left_down: bool,
}

/// The state of any widget, by kind.
#[derive(Clone, Copy, Debug, PartialEq, Eq, Structural)]
pub enum WidgetState {
    Panel(PanelState),
}

/// The state a widget keeps between two rebuilds of the interface.
pub trait State {
    /// The state as a value of the closed set of widget states.
    spec fn widget_state(&self) -> WidgetState;

    fn as_widget_state(&self) -> (s: WidgetState)
        ensures
            s == self.widget_state(),
    ;
}

/// A widget that keeps state of a known type between rebuilds.
pub trait StateView {
    type StateType: State + Default;
}

/// A widget: a rectangle in the window that reacts to the pointer.
pub trait WidgetView {
    /// Whether the widget's geometry is within the limits.
    spec fn wf(&self) -> bool;

    /// The rectangle the widget occupies.
    spec fn rect(&self) -> Rect;

    fn get_rect(&self) -> (r: Rect)
        requires
            self.wf(),
        ensures
            r == self.rect(),
            r.in_reach(),
    ;

    /// Whether the widget can follow the pointer to where `mouse` has it
    /// without leaving the limits.
    spec fn can_follow(&self, mouse: Mouse) -> bool;

    /// Whether the widget can work on `state`: it is state of its kind,
    /// within the limits.
    spec fn takes(&self, state: WidgetState) -> bool;

    fn on_mouse_move(&mut self, mouse: &Mouse)
        requires
            old(self).wf(),
            mouse.point.wf(),
            old(self).can_follow(*mouse),
        ensures
            final(self).wf(),
    ;

    fn on_mouse_press(&mut self, mouse: &Mouse)
        requires
            old(self).wf(),
            mouse.point.wf(),
        ensures
            final(self).wf(),
    ;

    fn on_mouse_release(&mut self, mouse: &Mouse)
        requires
            old(self).wf(),
            mouse.point.wf(),
        ensures
            final(self).wf(),
    ;

    /// Hands the widget the state that was kept for it, on which it works
    /// from then on.
    fn set_state(&mut self, state: WidgetState)
        requires
            old(self).wf(),
            old(self).takes(state),
        ensures
            final(self).wf(),
    ;
}

/// What a panel keeps between rebuilds: where it is, and the drag under
/// way, if any.
#[derive(Clone, Copy, Debug, PartialEq, Eq, Structural)]
pub struct PanelState {
    /// The centre of the panel, as `origin`, and its size.
    pub rect: Rect,
    /// Where the pointer was pressed, relative to the centre.
    pub offset: Option<Point>,
    pub selected: bool,
}

impl PanelState {
    pub open spec fn wf(self) -> bool {
        &&& self.rect.origin.wf()
        &&& self.rect.size.wf()
        &&& self.selected ==> self.offset.is_some()
        &&& match self.offset {
            Some(o) => -3 * SPAN_LIMIT <= o.x <= 3 * SPAN_LIMIT && -3 * SPAN_LIMIT <= o.y <= 3
                * SPAN_LIMIT,
            None => true,
        }
    }

    /// The rectangle the panel occupies: `rect.size`, centred on
    /// `rect.origin`.
    pub open spec fn frame(self) -> Rect {
        Rect {
            origin: Point {
                x: (self.rect.origin.x - self.rect.size.width / 2) as i32,
                y: (self.rect.origin.y - self.rect.size.height / 2) as i32,
            },
            size: self.rect.size,
        }
    }

    /// Whether a move of the pointer to where `mouse` has it keeps the
    /// panel within the limits: the panel is not selected, or the centre
    /// that keeps the pointer in its place on the panel is within them.
    pub open spec fn can_follow(self, mouse: Mouse) -> bool {
        match self.offset {
            Some(o) => self.selected ==> {
                &&& -SPAN_LIMIT <= mouse.point.x - o.x <= SPAN_LIMIT
                &&& -SPAN_LIMIT <= mouse.point.y - o.y <= SPAN_LIMIT
            },
            None => true,
        }
    }

    /// After the pointer moved: a selected panel moves so that the pointer
    /// keeps its place on it.
    pub open spec fn moved(self, mouse: Mouse) -> PanelState {
        match self.offset {
            Some(o) => if self.selected {
                PanelState {
                    rect: Rect {
                        origin: Point {
                            x: (mouse.point.x - o.x) as i32,
                            y: (mouse.point.y - o.y) as i32,
                        },
                        ..self.rect
                    },
                    ..self
                }
            } else {
                self
            },
            None => self,
        }
    }

    /// After a press: with the left button down the panel is selected, and
    /// remembers where on it the pointer is.
    pub open spec fn pressed(self, mouse: Mouse) -> PanelState {
        if mouse.left_down {
            PanelState {
                selected: true,
                offset: Some(
                    Point {
                        x: (mouse.point.x - self.rect.origin.x) as i32,
                        y: (mouse.point.y - self.rect.origin.y) as i32,
                    },
                ),
                ..self
            }
        } else {
            self
        }
    }

    /// After a release: the drag is over.
    pub open spec fn released(self) -> PanelState {
        PanelState { selected: false, offset: None, ..self }
    }
}

impl Default for PanelState {
    /// A panel of 100 by 100 at the origin, not selected.
    fn default() -> (s: PanelState)
        ensures
            s == (PanelState {
                rect: Rect { origin: Point { x: 0, y: 0 }, size: Size { width: 100, height: 100 } },
                offset: None,
                selected: false,
            }),
            s.wf(),
    {
        PanelState {
            rect: Rect { origin: Point { x: 0, y: 0 }, size: Size { width: 100, height: 100 } },
            offset: None,
            selected: false,
        }
    }
}

impl State for PanelState {
    open spec fn widget_state(&self) -> WidgetState {
        WidgetState::Panel(*self)
    }

    fn as_widget_state(&self) -> (s: WidgetState) {
        WidgetState::Panel(*self)
    }
}

/// A rectangular panel of one colour.
#[derive(Clone, Copy, Debug, PartialEq, Eq, Structural)]
pub struct Panel {
    pub state: PanelState,
    pub background: Rgba,
}

impl StateView for Panel {
    type StateType = PanelState;
}

/// The pointer's position relative to the origin of `rect`.
pub open spec fn spec_translate(point: Point, rect: Rect) -> Point {
    Point { x: (point.x - rect.origin.x) as i32, y: (point.y - rect.origin.y) as i32 }
}

/// The pointer's position relative to the centre of `rect`.
pub open spec fn spec_translate_center(point: Point, rect: Rect) -> Point {
    Point {
        x: (point.x - rect.origin.x - rect.size.width / 2) as i32,
        y: (point.y - rect.origin.y - rect.size.height / 2) as i32,
    }
}

/// The position `point` relative to the origin of `rect`.
pub fn translate_origin(point: Point, rect: Rect) -> (v: Point)
    requires
        point.wf(),
        rect.in_reach(),
    ensures
        v == spec_translate(point, rect),
        v.x == point.x - rect.origin.x,
        v.y == point.y - rect.origin.y,
{
    Point { x: point.x - rect.origin.x, y: point.y - rect.origin.y }
}

/// The position `point` relative to the centre of `rect`.
pub fn translate_center(point: Point, rect: Rect) -> (v: Point)
    requires
        point.wf(),
        rect.in_reach(),
    ensures
        v == spec_translate_center(point, rect),
        v.x == point.x - rect.origin.x - rect.size.width / 2,
        v.y == point.y - rect.origin.y - rect.size.height / 2,
{
    let pos = translate_origin(point, rect);
    Point { x: pos.x - rect.size.width / 2, y: pos.y - rect.size.height / 2 }
}

impl Mouse {
    pub fn new(point: Point, left_down: bool) -> (m: Mouse)
        ensures
            m == (Mouse { point, left_down }),
    {
        Mouse { point, left_down }
    }

    /// The pointer's position relative to the origin of the widget's
    /// rectangle.
    pub fn translate<V: WidgetView>(&self, view: &V) -> (v: Point)
        requires
            view.wf(),
            self.point.wf(),
        ensures
            v == spec_translate(self.point, view.rect()),
            v.x == self.point.x - view.rect().origin.x,
            v.y == self.point.y - view.rect().origin.y,
    {
        translate_origin(self.point, view.get_rect())
    }
}

impl Panel {
    /// A black panel of 100 by 100 at the origin.
    pub fn new() -> (p: Panel)
        ensures
            p.wf(),
            p.background == Rgba::black(255),
            p.state == (PanelState {
                rect: Rect { origin: Point { x: 0, y: 0 }, size: Size { width: 100, height: 100 } },
                offset: None,
                selected: false,
            }),
    {
        Panel { state: PanelState::default(), background: Rgba::black(255) }
    }

    /// The panel with its centre at `(x, y)` and the given size.
    pub fn frame(self, x: i32, y: i32, width: i32, height: i32) -> (p: Panel)
        requires
            self.wf(),
            (Point { x, y }).wf(),
            (Size { width, height }).wf(),
        ensures
            p.wf(),
            p.state.rect == (Rect { origin: Point { x, y }, size: Size { width, height } }),
            p.state.offset == self.state.offset,
            p.state.selected == self.state.selected,
            p.background == self.background,
    {
        let mut p = self;
        p.state.rect = Rect { origin: Point { x, y }, size: Size { width, height } };
        p
    }

    /// The rectangle the panel occupies: its size, centred on its position.
    pub fn occupied(&self) -> (r: Rect)
        requires
            self.state.wf(),
        ensures
            r == self.state.frame(),
            r.in_reach(),
    {
        Rect {
            origin: Point {
                x: self.state.rect.origin.x - self.state.rect.size.width / 2,
                y: self.state.rect.origin.y - self.state.rect.size.height / 2,
            },
            size: self.state.rect.size,
        }
    }

    /// Whether the panel can follow the pointer to where `mouse` has it
    /// without leaving the limits.
    pub fn follows(&self, mouse: &Mouse) -> (b: bool)
        requires
            self.state.wf(),
            mouse.point.wf(),
        ensures
            b == self.state.can_follow(*mouse),
    {
        match self.state.offset {
            Some(o) => {
                !self.state.selected || (Point {
                    x: mouse.point.x - o.x,
                    y: mouse.point.y - o.y,
                }).in_span()
            },
            None => true,
        }
    }

    /// The panel in another colour.
    pub fn background(self, color: Rgba) -> (p: Panel)
        ensures
            p.state == self.state,
            p.background == color,
    {
        let mut p = self;
        p.background = color;
        p
    }
}

impl WidgetView for Panel {
    open spec fn wf(&self) -> bool {
        self.state.wf()
    }

    open spec fn rect(&self) -> Rect {
        self.state.frame()
    }

    fn get_rect(&self) -> (r: Rect) {
        self.occupied()
    }

    open spec fn can_follow(&self, mouse: Mouse) -> bool {
        self.state.can_follow(mouse)
    }

    open spec fn takes(&self, state: WidgetState) -> bool {
        match state {
            WidgetState::Panel(s) => s.wf(),
        }
    }

    fn on_mouse_move(&mut self, mouse: &Mouse)
        ensures
            final(self).state == old(self).state.moved(*mouse),
            final(self).background == old(self).background,
    {
        if self.state.selected {
            match self.state.offset {
                Some(o) => {
                    self.state.rect.origin = Point {
                        x: mouse.point.x - o.x,
                        y: mouse.point.y - o.y,
                    };
                },
                None => {},
            }
        }
    }

    fn on_mouse_press(&mut self, mouse: &Mouse)
        ensures
            final(self).state == old(self).state.pressed(*mouse),
            final(self).background == old(self).background,
    {
        if mouse.left_down {
            let v = translate_center(mouse.point, self.occupied());
            self.state.selected = true;
            self.state.offset = Some(v);
        }
    }

    fn on_mouse_release(&mut self, mouse: &Mouse)
        ensures
            final(self).state == old(self).state.released(),
            final(self).background == old(self).background,
    {
        self.state.selected = false;
        self.state.offset = None;
    }

    fn set_state(&mut self, state: WidgetState)
        ensures
            final(self).background == old(self).background,
            state == WidgetState::Panel(final(self).state),
    {
        match state {
            WidgetState::Panel(s) => {
                self.state = s;
            },
        }
    }
}

/// Whether a panel state is within the limits.
pub fn panel_state_ok(s: &PanelState) -> (b: bool)
    ensures
        b == s.wf(),
{
    let offset_ok = match s.offset {
        Some(o) => -3 * SPAN_LIMIT <= o.x && o.x <= 3 * SPAN_LIMIT && -3 * SPAN_LIMIT <= o.y && o.y
            <= 3 * SPAN_LIMIT,
        None => !s.selected,
    };
    s.rect.origin.in_span() && 0 <= s.rect.size.width && s.rect.size.width <= SPAN_LIMIT && 0
        <= s.rect.size.height && s.rect.size.height <= SPAN_LIMIT && offset_ok
}

/// What happens in the window, as far as the widgets are concerned.
#[derive(Clone, Copy, Debug, PartialEq, Eq, Structural)]
pub enum WindowEvent {
    /// The pointer moved.
    CursorMoved,
    /// A button went down (`pressed`) or up.
    MouseInput { pressed: bool },
    /// Anything else.
    Other,
}

/// One place of the interface: the widget shown there, and the state
/// kept for that place from one build of the interface to the next.
#[derive(Clone, Copy, Debug, PartialEq, Eq, Structural)]
pub struct Element {
    pub view: Panel,
    /// The state kept apart from the widget's own. A widget that was
    /// appended works on its own state, and a fresh one is kept beside it.
    /// A widget that took the place of another works on the kept state
    /// itself, and nothing is kept apart.
    pub kept: Option<PanelState>,
}

impl Element {
    /// The state kept for this place, which the next widget to take the
    /// place will work on.
    pub open spec fn state(self) -> PanelState {
        match self.kept {
            Some(s) => s,
            None => self.view.state,
        }
    }

    /// The widget and the state kept apart from it are within the limits.
    pub open spec fn wf(self) -> bool {
        &&& self.view.wf()
        &&& match self.kept {
            Some(s) => s.wf(),
            None => true,
        }
    }

    /// The state kept for this place.
    pub fn kept_state(&self) -> (s: PanelState)
        ensures
            s == self.state(),
    {
        match self.kept {
            Some(s) => s,
            None => self.view.state,
        }
    }
}

/// The widgets of one window, in the order in which the interface was
/// built, and the place the rebuild under way has reached.
pub struct Ui {
    pub elements: Vec<Element>,
    pub index: usize,
}

/// The panel `p` after the event `event` with the pointer as in `mouse`:
/// every panel follows a move, and a panel under the pointer takes a press
/// or a release.
pub open spec fn panel_after(p: Panel, event: WindowEvent, mouse: Mouse) -> Panel {
    match event {
        WindowEvent::CursorMoved => Panel { state: p.state.moved(mouse), ..p },
        WindowEvent::MouseInput { pressed } => if p.rect().contains(mouse.point) {
            if pressed {
                Panel { state: p.state.pressed(mouse), ..p }
            } else {
                Panel { state: p.state.released(), ..p }
            }
        } else {
            p
        },
        WindowEvent::Other => p,
    }
}

impl Ui {
    /// The place of the rebuild is not beyond the end of the list, and
    /// every element is within the limits.
    pub open spec fn wf(&self) -> bool {
        &&& self.index <= self.elements@.len()
        &&& forall|i: int| 0 <= i < self.elements@.len() ==> (#[trigger] self.elements@[i]).wf()
    }

    /// Whether the event can be passed on with the pointer as in `mouse`:
    /// when the pointer moved, every widget can follow it.
    pub open spec fn accepts(&self, event: WindowEvent, mouse: Mouse) -> bool {
        event is CursorMoved ==> forall|i: int|
            0 <= i < self.elements@.len() ==> (#[trigger] self.elements@[i]).view.can_follow(mouse)
    }

    /// Whether one more element can be added: the list is empty, or the
    /// rebuild has not yet reached its end.
    pub open spec fn has_place(&self) -> bool {
        self.elements@.len() > 0 ==> self.index < self.elements@.len()
    }

    /// An interface without widgets.
    pub fn new() -> (ui: Ui)
        ensures
            ui.wf(),
            ui.elements@.len() == 0,
            ui.index == 0,
    {
        Ui { elements: Vec::new(), index: 0 }
    }

    /// Starts a rebuild: the next element added takes the first place.
    /// The caller then builds the interface anew, element by element.
    pub fn update(&mut self)
        requires
            old(self).wf(),
        ensures
            final(self).wf(),
            final(self).elements == old(self).elements,
            final(self).index == 0,
    {
        self.index = 0;
    }

    /// Whether one more element can be added.
    pub fn can_add(&self) -> (b: bool)
        ensures
            b == self.has_place(),
    {
        self.elements.len() == 0 || self.index < self.elements.len()
    }

    /// Adds the next element of the interface.
    ///
    /// Into an empty list the element is appended: it works on its own
    /// state, a fresh default state is kept beside it, and the place of the
    /// rebuild stays where it is. Otherwise the element takes the place the
    /// rebuild has reached: it works on the state kept for that place from
    /// then on, and the rebuild moves on by one place.
    pub fn add_element(&mut self, element: Panel)
        requires
            old(self).wf(),
            old(self).has_place(),
            element.wf(),
        ensures
            final(self).wf(),
            old(self).elements@.len() == 0 ==> {
                &&& final(self).index == old(self).index
                &&& final(self).elements@ == old(self).elements@.push(
                    Element {
                        view: element,
                        kept: Some(
                            PanelState {
                                rect: Rect {
                                    origin: Point { x: 0, y: 0 },
                                    size: Size { width: 100, height: 100 },
                                },
                                offset: None,
                                selected: false,
                            },
                        ),
                    },
                )
            },
            old(self).elements@.len() > 0 ==> {
                &&& final(self).index == old(self).index + 1
                &&& final(self).elements@ == old(self).elements@.update(
                    old(self).index as int,
                    Element {
                        view: Panel {
                            state: old(self).elements@[old(self).index as int].state(),
                            ..element
                        },
                        kept: None,
                    },
                )
            },
    {
        if self.elements.len() > 0 {
            let kept = self.elements[self.index].kept_state().as_widget_state();
            let mut fresh = element;
            fresh.set_state(kept);
            self.elements.set(self.index, Element { view: fresh, kept: None });
            self.index = self.index + 1;
        } else {
            self.elements.push(Element { view: element, kept: Some(PanelState::default()) });
        }
    }

    /// Whether the event can be passed on with the pointer as in `mouse`.
    pub fn can_take(&self, event: WindowEvent, mouse: &Mouse) -> (b: bool)
        requires
            self.wf(),
            mouse.point.wf(),
        ensures
            b == self.accepts(event, *mouse),
    {
        match event {
            WindowEvent::CursorMoved => {
                let n = self.elements.len();
                let mut i: usize = 0;
                while i < n
                    invariant
                        0 <= i <= n,
                        n == self.elements@.len(),
                        event is CursorMoved,
                        self.wf(),
                        mouse.point.wf(),
                        forall|k: int|
                            0 <= k < i ==> (#[trigger] self.elements@[k]).view.can_follow(*mouse),
                    decreases n - i,
                {
                    if !self.elements[i].view.follows(mouse) {
                        assert(!self.elements@[i as int].view.can_follow(*mouse));
                        return false;
                    }
                    i += 1;
                }
                true
            },
            _ => true,
        }
    }

    /// Passes a window event to the widgets. The states kept apart from
    /// them stay as they are.
    pub fn window_event(&mut self, event: WindowEvent, mouse: &Mouse)
        requires
            old(self).wf(),
            mouse.point.wf(),
            old(self).accepts(event, *mouse),
        ensures
            final(self).wf(),
            final(self).index == old(self).index,
            final(self).elements@.len() == old(self).elements@.len(),
            forall|i: int|
                0 <= i < old(self).elements@.len() ==> #[trigger] final(self).elements@[i] == (Element {
                    view: panel_after(old(self).elements@[i].view, event, *mouse),
                    kept: old(self).elements@[i].kept,
                }),
    {
        let n = self.elements.len();
        let mut i: usize = 0;
        while i < n
            invariant
                0 <= i <= n,
                n == self.elements@.len(),
                n == old(self).elements@.len(),
                self.index == old(self).index,
                mouse.point.wf(),
                old(self).accepts(event, *mouse),
                forall|k: int| 0 <= k < n ==> (#[trigger] self.elements@[k]).wf(),
                forall|k: int|
                    0 <= k < i ==> #[trigger] self.elements@[k] == (Element {
                        view: panel_after(old(self).elements@[k].view, event, *mouse),
                        kept: old(self).elements@[k].kept,
                    }),
                forall|k: int| i <= k < n ==> #[trigger] self.elements@[k] == old(self).elements@[k],
            decreases n - i,
        {
            let mut e = self.elements[i];
            match event {
                WindowEvent::CursorMoved => {
                    e.view.on_mouse_move(mouse);
                },
                WindowEvent::MouseInput { pressed } => {
                    if e.view.get_rect().contains_point(mouse.point) {
                        if pressed {
                            e.view.on_mouse_press(mouse);
                        } else {
                            e.view.on_mouse_release(mouse);
                        }
                    }
                },
                WindowEvent::Other => {},
            }
            self.elements.set(i, e);
            i += 1;
        }
    }

    /// The pointer's position relative to the origin of the widget's
    /// rectangle.
    pub fn translate_mouse<V: WidgetView>(mouse: &Mouse, view: &V) -> (v: Point)
        requires
            view.wf(),
            mouse.point.wf(),
        ensures
            v == spec_translate(mouse.point, view.rect()),
    {
        mouse.translate(view)
    }

    /// The pointer's position relative to the centre of the widget's
    /// rectangle.
    pub fn translate_mouse_center<V: WidgetView>(mouse: &Mouse, view: &V) -> (v: Point)
        requires
            view.wf(),
            mouse.point.wf(),
        ensures
            v == spec_translate_center(mouse.point, view.rect()),
            v.x == mouse.point.x - view.rect().origin.x - view.rect().size.width / 2,
            v.y == mouse.point.y - view.rect().origin.y - view.rect().size.height / 2,
    {
        translate_center(mouse.point, view.get_rect())
    }
}

} // verus!
