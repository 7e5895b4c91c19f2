//! `Center`: a directional midpoint inset.
//!
//! A `Center` owns a [`Padding`] and recomputes its insets on every draw from
//! the incoming context: half the width on the horizontal axis, half the
//! height on the vertical one.  Measurement delegates to the padding with
//! whatever insets the *previous* draw left there, so callers must draw before
//! trusting a centered measurement.

use vstd::prelude::*;

use crate::{Context, Widget};
use crate::model::CenterV;
use crate::widgets::padding::Padding;

verus! {

/// The axis selector of the directional containers.
#[derive(Clone, Copy, PartialEq, Eq, Structural, Debug)]
pub enum Direction {
    Horizontal,
    Vertical,
    Both,
}

/// Centers its child by padding it with half of the incoming box on the
/// selected axis(es).
pub struct Center {
    pub child: Padding,
    pub direction: Direction,
}

impl View for Center {
    type V = CenterV;

    open spec fn view(&self) -> CenterV {
        CenterV { child: crate::model::pad_view(self.child), direction: self.direction }
    }
}

impl Center {
    pub fn builder() -> (b: CenterBuilder)
        ensures
            b == CenterBuilder::new_spec(),
    {
        CenterBuilder::new()
    }

    /// Overwrites the owned padding's insets from the incoming context, on
    /// the selected axis(es): half the width left and right, half the height
    /// top and bottom.  This is the draw-time step of centering.
    pub fn set_insets(&mut self, ctx: Context)
        requires
            ctx.wf(),
        ensures
            final(self)@ == old(self)@.with_insets_spec(ctx),
            final(self).child.child == old(self).child.child,
            final(self).direction == old(self).direction,
    {
        match self.direction {
            Direction::Horizontal => {
                self.child.left = ctx.width / 2;
                self.child.right = ctx.width / 2;
            }
            Direction::Vertical => {
                self.child.bottom = ctx.height / 2;
                self.child.top = ctx.height / 2;
            }
            Direction::Both => {
                self.child.left = ctx.width / 2;
                self.child.right = ctx.width / 2;
                self.child.bottom = ctx.height / 2;
                self.child.top = ctx.height / 2;
            }
        }
    }
}

/// Configures a [`Center`] before it is frozen into the tree.
pub struct CenterBuilder {
    pub child: Padding,
    pub direction: Direction,
}

impl CenterBuilder {
    /// The starting configuration: a padding with zero insets and no child,
    /// centering horizontally.
    pub open spec fn new_spec() -> CenterBuilder {
        CenterBuilder {
            child: Padding { left: 0, right: 0, bottom: 0, top: 0, child: None },
            direction: Direction::Horizontal,
        }
    }

    pub fn new() -> (b: CenterBuilder)
        ensures
            b == CenterBuilder::new_spec(),
    {
        CenterBuilder {
            child: Padding { left: 0, right: 0, bottom: 0, top: 0, child: None },
            direction: Direction::Horizontal,
        }
    }

    /// Sets the single child, replacing any earlier one.
    pub fn child(self, child: Widget) -> (b: CenterBuilder)
        ensures
            b.child.left == self.child.left,
            b.child.right == self.child.right,
            b.child.top == self.child.top,
            b.child.bottom == self.child.bottom,
            b.child.child == Some(Box::new(child)),
            b.direction == self.direction,
    {
        let CenterBuilder { child: pad, direction } = self;
        CenterBuilder {
            child: Padding { child: Some(Box::new(child)), ..pad },
            direction,
        }
    }

    /// Selects which axis(es) to center on.
    pub fn direction(self, direction: Direction) -> (b: CenterBuilder)
        ensures
            b.child == self.child,
            b.direction == direction,
    {
        CenterBuilder { direction, ..self }
    }

    /// Freezes the configuration into the immutable runtime node.
    pub fn build(self) -> (c: Center)
        ensures
            c.child == self.child,
            c.direction == self.direction,
    {
        Center { child: self.child, direction: self.direction }
    }
}

} // verus!
