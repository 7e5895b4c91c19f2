//! The display list that a draw pass produces.
//!
//! Drawing is split in two: the widget tree computes, in verified code, the
//! exact sequence of primitives a frame consists of, and the platform layer
//! replays that sequence onto its rendering surface.  The `Canvas` here is the
//! recording half: an ordered list of [`DrawCmd`]s, appended to front to back
//! in draw order.

use vstd::prelude::*;

use crate::style::{Align, Color};

verus! {

/// One rendering primitive of a frame, with integer geometry.
#[derive(Clone, PartialEq, Debug)]
pub enum DrawCmd {
    /// A filled axis-aligned rectangle with its top-left corner at `(x, y)`.
    FillRect { x: i64, y: i64, width: i64, height: i64, color: Color },
    /// A single text run whose baseline starts at `(x, y)`.
    Text { x: i64, y: i64, text: String, color: Color, align: Align },
    /// A stroked equilateral triangle inscribed in the circle of the given
    /// center and radius.
    StrokeTriangle { x: i64, y: i64, radius: i64, color: Color },
}

/// Mirror of [`DrawCmd`] with mathematical geometry.
pub ghost enum DrawCmdV {
    FillRect { x: int, y: int, width: int, height: int, color: Color },
    Text { x: int, y: int, text: Seq<char>, color: Color, align: Align },
    StrokeTriangle { x: int, y: int, radius: int, color: Color },
}

impl View for DrawCmd {
    type V = DrawCmdV;

    open spec fn view(&self) -> DrawCmdV {
        match *self {
            DrawCmd::FillRect { x, y, width, height, color } => DrawCmdV::FillRect {
                x: x as int,
                y: y as int,
                width: width as int,
                height: height as int,
                color,
            },
            DrawCmd::Text { x, y, ref text, color, align } => DrawCmdV::Text {
                x: x as int,
                y: y as int,
                text: text@,
                color,
                align,
            },
            DrawCmd::StrokeTriangle { x, y, radius, color } => DrawCmdV::StrokeTriangle {
                x: x as int,
                y: y as int,
                radius: radius as int,
                color,
            },
        }
    }
}

/// The ordered list of primitives recorded by one or more draw calls.
pub struct Canvas {
    pub cmds: Vec<DrawCmd>,
}

impl View for Canvas {
    type V = Seq<DrawCmdV>;

    open spec fn view(&self) -> Seq<DrawCmdV> {
        Seq::new(self.cmds@.len(), |i: int| self.cmds@[i]@)
    }
}

impl Canvas {
    /// An empty display list.
    pub fn new() -> (c: Canvas)
        ensures
            c@ == Seq::<DrawCmdV>::empty(),
    {
        Canvas { cmds: Vec::new() }
    }

    /// Discards everything recorded so far.
    pub fn clear(&mut self)
        ensures
            final(self)@ == Seq::<DrawCmdV>::empty(),
    {
        self.cmds.clear();
    }

    /// Appends one primitive at the back (painted last, so on top).
    pub fn push(&mut self, cmd: DrawCmd)
        ensures
            final(self)@ == old(self)@.push(cmd@),
    {
        self.cmds.push(cmd);
        proof {
            assert(self@ =~= old(self)@.push(cmd@));
        }
    }

    pub fn len(&self) -> (n: usize)
        ensures
            n == self@.len(),
    {
        self.cmds.len()
    }

    /// The recorded primitive at position `i`, in paint order.
    pub fn cmd(&self, i: usize) -> (c: &DrawCmd)
        requires
            i < self@.len(),
        ensures
            c@ == self@[i as int],
    {
        &self.cmds[i]
    }
}

} // verus!
