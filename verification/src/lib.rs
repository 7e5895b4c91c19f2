//! yalem: a small retained-mode widget toolkit.
//!
//! A tree of composable nodes is laid out with box-style constraints in two
//! passes: `get_size` answers how much room a node would take inside a given
//! [`Context`], and `draw` walks the same tree and records the frame's
//! primitives into a [`canvas::Canvas`] display list.  Input is broadcast with
//! `send_event`: every node of the subtree sees every event, and a `Button`
//! whose recorded hit-rectangle contains a left press reports its click
//! action.  The platform layer around this crate owns the window, replays the
//! display list onto its rendering surface, and runs the reported actions.
//!
//! All geometry is integer-valued and confined to the coordinate space
//! `[0, MAX_COORD]`; degenerate values (a negative remaining width, an inset
//! larger than the box) are clamped rather than propagated.

use vstd::prelude::*;

pub mod canvas;
pub mod engine;
pub mod model;
pub mod style;
pub mod widgets;

use crate::widgets::button::Button;
use crate::widgets::center::Center;
use crate::widgets::expand::Expand;
use crate::widgets::list::List;
use crate::widgets::padding::Padding;
use crate::widgets::stateful::Stateful;
use crate::widgets::text::Text;
use crate::widgets::triangle::Triangle;

verus! {

/// Upper bound of the coordinate space.  Positions, box sizes and measured
/// sizes all live in `[0, MAX_COORD]`, so that any sum of two of them still
/// fits comfortably in an `i64`.
pub const MAX_COORD: i64 = 0x7fff_ffff;

/// Clamps an arbitrary integer into the coordinate space `[0, MAX_COORD]`.
pub open spec fn clamp_coord(v: int) -> int {
    if v < 0 {
        0
    } else if v > MAX_COORD as int {
        MAX_COORD as int
    } else {
        v
    }
}

/// Executable twin of [`clamp_coord`].
pub fn clamp_to_coord(v: i64) -> (r: i64)
    ensures
        r as int == clamp_coord(v as int),
{
    if v < 0 {
        0
    } else if v > MAX_COORD {
        MAX_COORD
    } else {
        v
    }
}

/// The downward-propagated box constraint for one layout or draw call: the
/// current origin `(x, y)` and the available box `width` by `height`.
///
/// A `Context` is an immutable value; containers never mutate the one they
/// received but derive a fresh one for each child from it and from their own
/// configuration.
#[derive(Clone, Copy, PartialEq, Eq, Structural, Debug)]
pub struct Context {
    pub x: i64,
    pub y: i64,
    pub width: i64,
    pub height: i64,
}

impl Context {
    /// All four fields lie in the coordinate space.
    pub open spec fn wf(self) -> bool {
        &&& 0 <= self.x <= MAX_COORD
        &&& 0 <= self.y <= MAX_COORD
        &&& 0 <= self.width <= MAX_COORD
        &&& 0 <= self.height <= MAX_COORD
    }

    /// Builds a context, clamping every field into the coordinate space.
    pub fn new(x: i64, y: i64, width: i64, height: i64) -> (c: Context)
        ensures
            c.x as int == clamp_coord(x as int),
            c.y as int == clamp_coord(y as int),
            c.width as int == clamp_coord(width as int),
            c.height as int == clamp_coord(height as int),
            c.wf(),
    {
        Context {
            x: clamp_to_coord(x),
            y: clamp_to_coord(y),
            width: clamp_to_coord(width),
            height: clamp_to_coord(height),
        }
    }
}

/// Clamps `v` into `[0, hi]`: the derived size of a child can neither be
/// negative nor exceed what its container was given.
pub open spec fn clamp_box(v: int, hi: int) -> int {
    if v < 0 {
        0
    } else if v > hi {
        hi
    } else {
        v
    }
}

/// One node of the widget tree.
///
/// The toolkit's node set is closed: a tree is built from these variants
/// alone, each container owning its children exclusively.  User-defined
/// subtrees enter through [`widgets::Stateful`], whose rebuild output is
/// filed in the pass table.
pub enum Widget {
    Text(Text),
    Triangle(Triangle),
    Padding(Padding),
    Center(Center),
    Expand(Expand),
    List(List),
    Button(Button),
    Stateful(Stateful),
}

impl View for Widget {
    type V = crate::model::WidgetV;

    open spec fn view(&self) -> crate::model::WidgetV {
        crate::model::widget_view(*self)
    }
}

/// The mouse button of a press event, as the platform layer reports it.
#[derive(Clone, Copy, PartialEq, Eq, Structural, Debug)]
pub enum MouseButton {
    Left,
    Right,
    Middle,
    Other(u16),
}

/// A mouse event.  Only left presses currently produce any reaction.
#[derive(Clone, Copy, PartialEq, Eq, Structural, Debug)]
pub enum YalemMouse {
    Pressed { button: MouseButton, x: i64, y: i64 },
}

/// An input event delivered to the widget tree.
#[derive(Clone, Copy, PartialEq, Eq, Structural, Debug)]
pub enum YalemEvent {
    YalemMouse(YalemMouse),
}

/// The top-level owner of one widget tree.
///
/// The platform layer owns the surface and the run loop; it hands each
/// redraw's pixel dimensions to [`Window::draw`] and each input event to
/// [`Window::send_event`], and gets back the frame's display list and the
/// click actions to run.
pub struct Window {
    pub title: String,
    pub root: Option<Widget>,
}

impl Window {
    /// The root widget, and thereby the whole tree, is well formed.
    pub open spec fn wf(self) -> bool {
        match self.root {
            Some(r) => crate::model::wf_widget(r@),
            None => true,
        }
    }

    /// A window with no root yet and a placeholder title.
    pub fn new() -> (w: Window)
        ensures
            w.title@ == "Test"@,
            w.root is None,
    {
        Window { title: "Test".to_owned(), root: None }
    }

    /// Sets the window title.
    pub fn with_title(self, title: &str) -> (w: Window)
        ensures
            w.title@ == title@,
            w.root == self.root,
    {
        Window { title: title.to_owned(), root: self.root }
    }

    /// Sets the root widget, replacing any earlier one.
    pub fn root(self, child: Widget) -> (w: Window)
        ensures
            w.title == self.title,
            w.root == Some(child),
    {
        Window { title: self.title, root: Some(child) }
    }

    /// Draws one frame: builds the root context from the surface's current
    /// pixel dimensions, with the origin at the top-left corner, and forwards
    /// into the root widget.  Without a root, nothing is recorded.
    pub fn draw(&mut self, width: i64, height: i64, subs: &widgets::Rebuilds, canvas: &mut canvas::Canvas)
        requires
            old(self).wf(),
            crate::model::subs_wf(subs@),
        ensures
            final(self).title == old(self).title,
            final(self).wf(),
            match old(self).root {
                Some(r) => {
                    let d = crate::engine::draw_spec(
                        r@,
                        subs@,
                        root_context_spec(width as int, height as int),
                    );
                    &&& final(self).root is Some
                    &&& final(self).root->Some_0@ == d.1
                    &&& final(canvas)@ == old(canvas)@ + d.0
                },
                None => {
                    &&& final(self).root is None
                    &&& final(canvas)@ == old(canvas)@
                },
            },
    {
        let ctx = Context::new(0, 0, width, height);
        proof {
            assert(ctx == root_context_spec(width as int, height as int));
        }
        match &mut self.root {
            Some(r) => {
                r.draw(subs, ctx, canvas);
            },
            None => {
                proof {
                    assert(canvas@ =~= old(canvas)@);
                }
            },
        }
    }

    /// Forwards one input event into the root widget and returns the click
    /// actions it produced, in dispatch order.  Without a root, none.
    pub fn send_event(&self, subs: &widgets::Rebuilds, event: &YalemEvent) -> (fired: Vec<u64>)
        requires
            crate::model::subs_wf(subs@),
        ensures
            fired@ == match self.root {
                Some(r) => crate::engine::dispatch_spec(r@, subs@, *event),
                None => Seq::<u64>::empty(),
            },
    {
        let mut fired: Vec<u64> = Vec::new();
        match &self.root {
            Some(r) => {
                r.send_event(subs, event, &mut fired);
                proof {
                    assert(fired@ =~= crate::engine::dispatch_spec(r@, subs@, *event));
                }
            },
            None => {},
        }
        fired
    }
}

/// The root box constraint of a frame: origin at the top-left corner of the
/// surface, the surface's pixel dimensions as the available box, clamped
/// into the coordinate space.
pub open spec fn root_context_spec(width: int, height: int) -> Context {
    Context { x: 0, y: 0, width: clamp_coord(width) as i64, height: clamp_coord(height) as i64 }
}

/// A flat ordered collection of windows with independent lifecycles.
pub struct App {
    pub windows: Vec<Window>,
}

impl App {
    /// An application with no windows.
    pub fn new() -> (a: App)
        ensures
            a.windows@ == Seq::<Window>::empty(),
    {
        App { windows: Vec::new() }
    }

    /// Appends one window.
    pub fn with_window(self, window: Window) -> (a: App)
        ensures
            a.windows@ == self.windows@.push(window),
    {
        let mut windows = self.windows;
        windows.push(window);
        App { windows }
    }

    /// Hands the windows over to the run loop that hosts them.
    pub fn into_windows(self) -> (w: Vec<Window>)
        ensures
            w == self.windows,
    {
        self.windows
    }
}

} // verus!
