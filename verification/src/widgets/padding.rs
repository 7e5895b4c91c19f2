//! `Padding`: insets a box on up to four sides.
//!
//! The child context an inset derives is the one testable formula of this
//! widget: origin moved by `(left, top)`, available size reduced by the
//! opposing insets and clamped into `[0, available]`.

use vstd::prelude::*;

use crate::{clamp_box, clamp_coord, clamp_to_coord, Context, Widget, MAX_COORD};
use crate::model::PadV;

verus! {

/// A container that insets its required child on four sides.
pub struct Padding {
    pub left: i64,
    pub right: i64,
    pub bottom: i64,
    pub top: i64,
    pub child: Option<Box<Widget>>,
}

impl View for Padding {
    type V = PadV;

    open spec fn view(&self) -> PadV {
        crate::model::pad_view(*self)
    }
}

impl Padding {
    /// The box constraint handed to the child: origin moved by `(left, top)`,
    /// the available size reduced by the opposing insets and clamped into
    /// `[0, available]`.
    pub fn child_context(&self, ctx: Context) -> (c: Context)
        requires
            ctx.wf(),
            self@.insets_wf(),
        ensures
            c == self@.child_context_spec(ctx),
            c.wf(),
    {
        Context {
            x: clamp_to_coord(ctx.x + self.left),
            y: clamp_to_coord(ctx.y + self.top),
            width: clamp_box_exec(ctx.width - self.left - self.right, ctx.width),
            height: clamp_box_exec(ctx.height - self.top - self.bottom, ctx.height),
        }
    }
}

/// The padding law: for insets `(left, right, top, bottom)` and an incoming
/// context `(x, y, w, h)` whose moved origin still lies in the coordinate
/// space, the derived child context is exactly
/// `(x + left, y + top, clamp(w - left - right, 0, w), clamp(h - top - bottom, 0, h))`.
pub proof fn lemma_padding_child_context(p: PadV, ctx: Context)
    requires
        p.insets_wf(),
        ctx.wf(),
        ctx.x as int + p.left <= MAX_COORD as int,
        ctx.y as int + p.top <= MAX_COORD as int,
    ensures
        p.child_context_spec(ctx).x as int == ctx.x as int + p.left,
        p.child_context_spec(ctx).y as int == ctx.y as int + p.top,
        p.child_context_spec(ctx).width as int == clamp_box(
            ctx.width as int - p.left - p.right,
            ctx.width as int,
        ),
        p.child_context_spec(ctx).height as int == clamp_box(
            ctx.height as int - p.top - p.bottom,
            ctx.height as int,
        ),
{
}

/// Executable twin of [`clamp_box`].
pub(crate) fn clamp_box_exec(v: i64, hi: i64) -> (r: i64)
    requires
        0 <= hi,
    ensures
        r as int == clamp_box(v as int, hi as int),
{
    if v < 0 {
        0
    } else if v > hi {
        hi
    } else {
        v
    }
}

/// Configures a [`Padding`] before it is frozen into the tree.
pub struct PaddingBuilder {
    pub left: i64,
    pub right: i64,
    pub bottom: i64,
    pub top: i64,
    pub child: Option<Box<Widget>>,
}

impl PaddingBuilder {
    /// Starts from the four insets `(left, right, top, bottom)`, clamped into
    /// the coordinate space, and no child.
    pub fn new(insets: (i64, i64, i64, i64)) -> (b: PaddingBuilder)
        ensures
            b.left as int == clamp_coord(insets.0 as int),
            b.right as int == clamp_coord(insets.1 as int),
            b.top as int == clamp_coord(insets.2 as int),
            b.bottom as int == clamp_coord(insets.3 as int),
            b.child is None,
    {
        let (left, right, top, bottom) = insets;
        PaddingBuilder {
            left: clamp_to_coord(left),
            right: clamp_to_coord(right),
            bottom: clamp_to_coord(bottom),
            top: clamp_to_coord(top),
            child: None,
        }
    }

    /// Sets the single child, replacing any earlier one.
    pub fn child(self, child: Widget) -> (b: PaddingBuilder)
        ensures
            b.left == self.left,
            b.right == self.right,
            b.top == self.top,
            b.bottom == self.bottom,
            b.child == Some(Box::new(child)),
    {
        PaddingBuilder { child: Some(Box::new(child)), ..self }
    }

    /// Freezes the configuration into the immutable runtime node.
    pub fn build(self) -> (p: Padding)
        ensures
            p.left == self.left,
            p.right == self.right,
            p.top == self.top,
            p.bottom == self.bottom,
            p.child == self.child,
    {
        Padding {
            left: self.left,
            right: self.right,
            bottom: self.bottom,
            top: self.top,
            child: self.child,
        }
    }
}

} // verus!
