//! `Triangle`: a fixed decorative shape.
//!
//! The triangle is stroked inside the circle whose center sits a small step
//! below the draw origin and whose radius is a fixed fraction of the smaller
//! box dimension; the trigonometry of the three vertices is the renderer's
//! business.  A `Triangle` has no children and no measurement contract of its
//! own: it reports the incoming box unchanged.

use vstd::prelude::*;

use crate::canvas::{DrawCmd, DrawCmdV};
use crate::Context;
use crate::model::TriangleV;
use crate::style::Color;

verus! {

/// Vertical distance from the draw origin down to the circle center.
pub const TRIANGLE_DROP: i64 = 10;

/// A leaf that strokes one decorative triangle.
pub struct Triangle {
    pub background_color: Color,
}

impl View for Triangle {
    type V = TriangleV;

    open spec fn view(&self) -> TriangleV {
        TriangleV { background_color: self.background_color }
    }
}

/// The radius of the circle a triangle is inscribed in: a bit over half of
/// the smaller of the box width and the box height less the drop, clamped at
/// zero when the box is degenerate.
pub open spec fn triangle_radius_spec(ctx: Context) -> int {
    let side = if ctx.width as int <= ctx.height as int - TRIANGLE_DROP as int {
        ctx.width as int
    } else {
        ctx.height as int - TRIANGLE_DROP as int
    };
    let clamped = if side < 0 {
        0
    } else {
        side
    };
    clamped / 2 * 53 / 100
}

/// The one primitive a triangle draw records.
pub open spec fn triangle_cmd_spec(t: TriangleV, ctx: Context) -> DrawCmdV {
    DrawCmdV::StrokeTriangle {
        x: ctx.x as int,
        y: ctx.y as int + TRIANGLE_DROP as int,
        radius: triangle_radius_spec(ctx),
        color: t.background_color,
    }
}

impl Triangle {
    /// The primitive this triangle records when drawn inside `ctx`.
    pub fn cmd_for(&self, ctx: Context) -> (c: DrawCmd)
        requires
            ctx.wf(),
        ensures
            c@ == triangle_cmd_spec(self@, ctx),
    {
        let limit = ctx.height - TRIANGLE_DROP;
        let side = if ctx.width <= limit {
            ctx.width
        } else {
            limit
        };
        let clamped = if side < 0 {
            0
        } else {
            side
        };
        DrawCmd::StrokeTriangle {
            x: ctx.x,
            y: ctx.y + TRIANGLE_DROP,
            radius: clamped / 2 * 53 / 100,
            color: self.background_color,
        }
    }
}

/// Configures a [`Triangle`] before it is frozen into the tree.
pub struct TriangleBuilder {
    pub background_color: Color,
}

impl TriangleBuilder {
    /// The starting configuration: a black stroke.
    pub fn new() -> (b: TriangleBuilder)
        ensures
            b.background_color == (Color { r: 0, g: 0, b: 0, a: 255 }),
    {
        TriangleBuilder { background_color: Color::black() }
    }

    /// Sets the stroke color.
    pub fn background(self, color: Color) -> (b: TriangleBuilder)
        ensures
            b.background_color == color,
    {
        TriangleBuilder { background_color: color }
    }

    /// Freezes the configuration into the immutable runtime node.
    pub fn build(self) -> (t: Triangle)
        ensures
            t.background_color == self.background_color,
    {
        Triangle { background_color: self.background_color }
    }
}

} // verus!
