//! `Button`: a filled rectangle with an optional child and a click region.
//!
//! Sizing follows one precedence rule: an explicitly configured width or
//! height always wins over the child's intrinsic size, which wins over zero.
//! Each draw records the rectangle that was filled; a later left press whose
//! position lies inside that rectangle (inclusive on all four edges) reports
//! the configured click action exactly once.  The rectangle is only refreshed
//! by a draw: an event dispatched before any draw, or after geometry changed
//! without a redraw, is tested against the stale rectangle.

use vstd::prelude::*;

use crate::{clamp_coord, clamp_to_coord, Context, Widget};
use crate::model::{opt_view, ButtonV};
use crate::style::Color;

verus! {

/// A clickable filled rectangle, optionally wrapping a child.
pub struct Button {
    pub background_color: Color,
    pub child: Option<Box<Widget>>,
    pub width: Option<i64>,
    pub height: Option<i64>,
    pub callback: Option<u64>,
    pub positions: (i64, i64, i64, i64),
}

impl View for Button {
    type V = ButtonV;

    open spec fn view(&self) -> ButtonV {
        ButtonV {
            background_color: self.background_color,
            child: opt_view(self.child),
            width: match self.width {
                Some(w) => Some(w as int),
                None => None,
            },
            height: match self.height {
                Some(h) => Some(h as int),
                None => None,
            },
            callback: self.callback,
            positions: (
                self.positions.0 as int,
                self.positions.1 as int,
                self.positions.2 as int,
                self.positions.3 as int,
            ),
        }
    }
}

impl Button {
    /// Whether a position lies inside the rectangle recorded by the most
    /// recent draw, inclusive on all four edges.
    pub fn hit_test(&self, x: i64, y: i64) -> (hit: bool)
        ensures
            hit == self@.hit_spec(x as int, y as int),
    {
        x >= self.positions.0 && y >= self.positions.1 && x <= self.positions.2 && y
            <= self.positions.3
    }

    /// The rectangle recorded by the most recent draw, as
    /// `(left, top, right, bottom)`.
    pub fn hit_rectangle(&self) -> (r: (i64, i64, i64, i64))
        ensures
            r == self.positions,
    {
        self.positions
    }
}

/// Configures a [`Button`] before it is frozen into the tree.
pub struct ButtonBuilder {
    pub background_color: Color,
    pub child: Option<Box<Widget>>,
    pub width: Option<i64>,
    pub height: Option<i64>,
    pub callback: Option<u64>,
}

impl ButtonBuilder {
    /// The starting configuration: transparent background, no child, no fixed
    /// size, no click action.
    pub fn new() -> (b: ButtonBuilder)
        ensures
            b.background_color == (Color { r: 0, g: 0, b: 0, a: 0 }),
            b.child is None,
            b.width is None,
            b.height is None,
            b.callback is None,
    {
        ButtonBuilder {
            background_color: Color::transparent(),
            child: None,
            width: None,
            height: None,
            callback: None,
        }
    }

    /// Sets the single child, replacing any earlier one.
    pub fn child(self, child: Widget) -> (b: ButtonBuilder)
        ensures
            b == (ButtonBuilder { child: Some(Box::new(child)), ..self }),
    {
        ButtonBuilder { child: Some(Box::new(child)), ..self }
    }

    /// Fixes the width, clamped into the coordinate space.  A fixed width
    /// always wins over the child's intrinsic width.
    pub fn width(self, width: i64) -> (b: ButtonBuilder)
        ensures
            b.width == Some(clamp_coord(width as int) as i64),
            b.background_color == self.background_color,
            b.child == self.child,
            b.height == self.height,
            b.callback == self.callback,
    {
        ButtonBuilder { width: Some(clamp_to_coord(width)), ..self }
    }

    /// Fixes the height, clamped into the coordinate space.  A fixed height
    /// always wins over the child's intrinsic height.
    pub fn height(self, height: i64) -> (b: ButtonBuilder)
        ensures
            b.height == Some(clamp_coord(height as int) as i64),
            b.background_color == self.background_color,
            b.child == self.child,
            b.width == self.width,
            b.callback == self.callback,
    {
        ButtonBuilder { height: Some(clamp_to_coord(height)), ..self }
    }

    /// Sets the background fill color.
    pub fn background(self, color: Color) -> (b: ButtonBuilder)
        ensures
            b == (ButtonBuilder { background_color: color, ..self }),
    {
        ButtonBuilder { background_color: color, ..self }
    }

    /// Configures the click action: the identifier that a dispatch reports
    /// when a left press hits the rectangle recorded by the last draw.  The
    /// platform layer maps identifiers back to the callbacks it owns.
    pub fn on_click(self, action: u64) -> (b: ButtonBuilder)
        ensures
            b == (ButtonBuilder { callback: Some(action), ..self }),
    {
        ButtonBuilder { callback: Some(action), ..self }
    }

    /// Freezes the configuration into the immutable runtime node.  The hit
    /// rectangle starts empty at the origin until a first draw records it.
    pub fn build(self) -> (b: Button)
        ensures
            b.background_color == self.background_color,
            b.child == self.child,
            b.width == self.width,
            b.height == self.height,
            b.callback == self.callback,
            b.positions == (0i64, 0i64, 0i64, 0i64),
    {
        Button {
            background_color: self.background_color,
            child: self.child,
            width: self.width,
            height: self.height,
            callback: self.callback,
            positions: (0, 0, 0, 0),
        }
    }
}

} // verus!
