//! `Text`: a single line of text with a crude wrap heuristic.
//!
//! Measurement uses a fixed per-character advance: width is the character
//! count times [`CHAR_WIDTH`], height is [`CHAR_HEIGHT`].  If that width does
//! not fit the available box the width is clamped to the box and the height
//! doubled — a single-line-break heuristic; no actual wrapping is performed.

use vstd::prelude::*;
use vstd::string::StrSliceExecFns;

use crate::canvas::{DrawCmd, DrawCmdV};
use crate::Context;
use crate::model::TextV;
use crate::style::{Align, Color};

verus! {

/// Horizontal advance of one character in the measuring heuristic.
pub const CHAR_WIDTH: i64 = 6;

/// Line height of a single line of text in the measuring heuristic.
pub const CHAR_HEIGHT: i64 = 12;

/// Vertical distance from the draw origin down to the text baseline.
pub const TEXT_BASELINE: i64 = 9;

/// A leaf that renders one string.
pub struct Text {
    pub color: Color,
    pub text: String,
    pub align: Align,
}

impl View for Text {
    type V = TextV;

    open spec fn view(&self) -> TextV {
        TextV { color: self.color, text: self.text@, align: self.align }
    }
}

/// The measured size of a text run: the per-character heuristic, clamped to
/// the available width with the height doubled when it does not fit.
pub open spec fn text_size_spec(text: Seq<char>, ctx: Context) -> (int, int) {
    let wanted = (text.len() as int) * (CHAR_WIDTH as int);
    if wanted > ctx.width as int {
        (ctx.width as int, 2 * (CHAR_HEIGHT as int))
    } else {
        (wanted, CHAR_HEIGHT as int)
    }
}

/// The one primitive a text draw records: the run at the draw origin, moved
/// down to the baseline.  Draw-time geometry is independent of any prior
/// measurement.
pub open spec fn text_cmd_spec(t: TextV, ctx: Context) -> DrawCmdV {
    DrawCmdV::Text {
        x: ctx.x as int,
        y: ctx.y as int + TEXT_BASELINE as int,
        text: t.text,
        color: t.color,
        align: t.align,
    }
}

impl Text {
    /// The primitive this text run records when drawn inside `ctx`.
    pub fn cmd_for(&self, ctx: Context) -> (c: DrawCmd)
        requires
            ctx.wf(),
        ensures
            c@ == text_cmd_spec(self@, ctx),
    {
        DrawCmd::Text {
            x: ctx.x,
            y: ctx.y + TEXT_BASELINE,
            text: self.text.as_str().to_owned(),
            color: self.color,
            align: self.align,
        }
    }

    pub fn builder(text: &str) -> (b: TextBuilder)
        ensures
            b.color == (Color { r: 0, g: 0, b: 0, a: 255 }),
            b.text@ == text@,
            b.align == Align::Left,
    {
        TextBuilder::new(text)
    }

    /// The space this text run would occupy inside `ctx`.
    pub fn size_for(&self, ctx: Context) -> (s: (i64, i64))
        requires
            ctx.wf(),
        ensures
            (s.0 as int, s.1 as int) == text_size_spec(self@.text, ctx),
    {
        let n = self.text.as_str().unicode_len();
        let fit: usize = (ctx.width / CHAR_WIDTH) as usize;
        if n > fit {
            proof {
                assert(self@.text.len() * CHAR_WIDTH > ctx.width) by {
                    assert(n >= fit + 1);
                    assert((fit + 1) * CHAR_WIDTH > ctx.width) by {
                        assert(fit == ctx.width as int / CHAR_WIDTH as int);
                    };
                    assert(n * CHAR_WIDTH >= (fit + 1) * CHAR_WIDTH) by (nonlinear_arith)
                        requires
                            n >= fit + 1,
                    ;
                };
            }
            (ctx.width, 2 * CHAR_HEIGHT)
        } else {
            proof {
                assert(n * CHAR_WIDTH <= ctx.width) by {
                    assert(fit == ctx.width as int / CHAR_WIDTH as int);
                    assert(n * CHAR_WIDTH <= fit * CHAR_WIDTH) by (nonlinear_arith)
                        requires
                            n <= fit,
                    ;
                };
            }
            ((n as i64) * CHAR_WIDTH, CHAR_HEIGHT)
        }
    }
}

/// Configures a [`Text`] before it is frozen into the tree.
pub struct TextBuilder {
    pub color: Color,
    pub text: String,
    pub align: Align,
}

impl TextBuilder {
    /// Starts from the string to render, in black, aligned left.
    pub fn new(text: &str) -> (b: TextBuilder)
        ensures
            b.color == (Color { r: 0, g: 0, b: 0, a: 255 }),
            b.text@ == text@,
            b.align == Align::Left,
    {
        TextBuilder { color: Color::black(), text: text.to_owned(), align: Align::Left }
    }

    /// Sets the horizontal alignment.
    pub fn align(self, align: Align) -> (b: TextBuilder)
        ensures
            b.color == self.color,
            b.text == self.text,
            b.align == align,
    {
        TextBuilder { align, ..self }
    }

    /// Sets the horizontal alignment (an older name for [`Self::align`]).
    pub fn set_align(self, align: Align) -> (b: TextBuilder)
        ensures
            b.color == self.color,
            b.text == self.text,
            b.align == align,
    {
        TextBuilder { align, ..self }
    }

    /// Sets the text color.
    pub fn color(self, color: Color) -> (b: TextBuilder)
        ensures
            b.color == color,
            b.text == self.text,
            b.align == self.align,
    {
        TextBuilder { color, ..self }
    }

    /// Freezes the configuration into the immutable runtime node.
    pub fn build(self) -> (t: Text)
        ensures
            t.color == self.color,
            t.text == self.text,
            t.align == self.align,
    {
        Text { color: self.color, text: self.text, align: self.align }
    }
}

} // verus!
