//! `Expand`: fills the available space on the selected axis(es).
//!
//! On the horizontal axis the child's width becomes the distance from the
//! current origin to the right edge of the box while its height stays
//! intrinsic; the vertical case mirrors it; `Both` passes the incoming
//! context through unchanged.  Without a child, `Expand` reports the incoming
//! box and draws nothing.

use vstd::prelude::*;

use crate::Widget;
use crate::model::{opt_view, ExpandV};
use crate::widgets::center::Direction;

verus! {

/// A container that expands its child to the remaining space on the selected
/// axis(es).
pub struct Expand {
    pub child: Option<Box<Widget>>,
    pub direction: Direction,
}

impl View for Expand {
    type V = ExpandV;

    open spec fn view(&self) -> ExpandV {
        ExpandV { child: opt_view(self.child), direction: self.direction }
    }
}

impl Expand {
    pub fn builder() -> (b: ExpandBuilder)
        ensures
            b.child is None,
            b.direction == Direction::Horizontal,
    {
        ExpandBuilder::new()
    }
}

/// Configures an [`Expand`] before it is frozen into the tree.
pub struct ExpandBuilder {
    pub child: Option<Box<Widget>>,
    pub direction: Direction,
}

impl ExpandBuilder {
    /// The starting configuration: no child, expanding horizontally.
    pub fn new() -> (b: ExpandBuilder)
        ensures
            b.child is None,
            b.direction == Direction::Horizontal,
    {
        ExpandBuilder { child: None, direction: Direction::Horizontal }
    }

    /// Sets the single child, replacing any earlier one.
    pub fn child(self, child: Widget) -> (b: ExpandBuilder)
        ensures
            b.child == Some(Box::new(child)),
            b.direction == self.direction,
    {
        ExpandBuilder { child: Some(Box::new(child)), ..self }
    }

    /// Selects which axis(es) to expand on.
    pub fn direction(self, direction: Direction) -> (b: ExpandBuilder)
        ensures
            b.child == self.child,
            b.direction == direction,
    {
        ExpandBuilder { direction, ..self }
    }

    /// Freezes the configuration into the immutable runtime node.
    pub fn build(self) -> (e: Expand)
        ensures
            e.child == self.child,
            e.direction == self.direction,
    {
        Expand { child: self.child, direction: self.direction }
    }
}

} // verus!
