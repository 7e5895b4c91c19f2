//! The mathematical model of the widget tree.
//!
//! Every runtime node has a ghost mirror with `int` geometry and `Seq`
//! children, reached through the `View` impls of the runtime types.  The
//! layout, draw and dispatch semantics in [`crate::engine`] are defined over
//! these mirrors, and the executable engine is proved to agree with them.

use vstd::prelude::*;

use crate::{clamp_box, clamp_coord, Context, Widget, MAX_COORD};
use crate::style::{Align, Color};
use crate::widgets::center::Direction;
use crate::widgets::padding::Padding;

verus! {

/// Mirror of [`crate::widgets::text::Text`].
pub ghost struct TextV {
    pub color: Color,
    pub text: Seq<char>,
    pub align: Align,
}

/// Mirror of [`crate::widgets::triangle::Triangle`].
pub ghost struct TriangleV {
    pub background_color: Color,
}

/// Mirror of [`crate::widgets::padding::Padding`].
pub ghost struct PadV {
    pub left: int,
    pub right: int,
    pub top: int,
    pub bottom: int,
    pub child: Option<Box<WidgetV>>,
}

/// Mirror of [`crate::widgets::center::Center`].
pub ghost struct CenterV {
    pub child: PadV,
    pub direction: Direction,
}

/// Mirror of [`crate::widgets::expand::Expand`].
pub ghost struct ExpandV {
    pub child: Option<Box<WidgetV>>,
    pub direction: Direction,
}

/// Mirror of [`crate::widgets::list::List`].
pub ghost struct ListV {
    pub children: Seq<WidgetV>,
}

/// Mirror of [`crate::widgets::button::Button`].
pub ghost struct ButtonV {
    pub background_color: Color,
    pub child: Option<Box<WidgetV>>,
    pub width: Option<int>,
    pub height: Option<int>,
    pub callback: Option<u64>,
    pub positions: (int, int, int, int),
}

/// Mirror of [`crate::widgets::stateful::Stateful`].
pub ghost struct StatefulV {
    pub render: u64,
}

/// Mirror of [`crate::Widget`].
pub ghost enum WidgetV {
    Text(TextV),
    Triangle(TriangleV),
    Padding(PadV),
    Center(CenterV),
    Expand(ExpandV),
    List(ListV),
    Button(ButtonV),
    Stateful(StatefulV),
}

/// The ghost mirror of one runtime node.
pub open spec fn widget_view(w: Widget) -> WidgetV
    decreases w,
{
    match w {
        Widget::Text(t) => WidgetV::Text(
            TextV { color: t.color, text: t.text@, align: t.align },
        ),
        Widget::Triangle(t) => WidgetV::Triangle(TriangleV { background_color: t.background_color }),
        Widget::Padding(p) => WidgetV::Padding(pad_view(p)),
        Widget::Center(c) => WidgetV::Center(
            CenterV { child: pad_view(c.child), direction: c.direction },
        ),
        Widget::Expand(e) => WidgetV::Expand(
            ExpandV { child: opt_view(e.child), direction: e.direction },
        ),
        Widget::List(l) => WidgetV::List(ListV { children: seq_view(l.children@) }),
        Widget::Button(b) => WidgetV::Button(
            ButtonV {
                background_color: b.background_color,
                child: opt_view(b.child),
                width: match b.width {
                    Some(w) => Some(w as int),
                    None => None,
                },
                height: match b.height {
                    Some(h) => Some(h as int),
                    None => None,
                },
                callback: b.callback,
                positions: (
                    b.positions.0 as int,
                    b.positions.1 as int,
                    b.positions.2 as int,
                    b.positions.3 as int,
                ),
            },
        ),
        Widget::Stateful(s) => WidgetV::Stateful(StatefulV { render: s.render }),
    }
}

/// The ghost mirror of a padding node.
pub open spec fn pad_view(p: Padding) -> PadV
    decreases p,
{
    PadV {
        left: p.left as int,
        right: p.right as int,
        top: p.top as int,
        bottom: p.bottom as int,
        child: opt_view(p.child),
    }
}

/// The ghost mirror of an optional boxed child.
pub open spec fn opt_view(c: Option<Box<Widget>>) -> Option<Box<WidgetV>>
    decreases c,
{
    match c {
        Some(b) => Some(Box::new(widget_view(*b))),
        None => None,
    }
}

/// The ghost mirrors of an ordered child sequence.
pub open spec fn seq_view(s: Seq<Widget>) -> Seq<WidgetV>
    decreases s,
{
    if s.len() == 0 {
        Seq::empty()
    } else {
        seq![widget_view(s[0])] + seq_view(s.drop_first())
    }
}

/// [`seq_view`] maps the mirror over the sequence pointwise.
pub proof fn lemma_seq_view_pointwise(s: Seq<Widget>)
    ensures
        seq_view(s).len() == s.len(),
        forall|j: int| 0 <= j < s.len() ==> seq_view(s)[j] == widget_view(s[j]),
    decreases s,
{
    if s.len() > 0 {
        lemma_seq_view_pointwise(s.drop_first());
    }
}

/// [`seq_view`] distributes over appending one element.
pub proof fn lemma_seq_view_push(s: Seq<Widget>, w: Widget)
    ensures
        seq_view(s.push(w)) == seq_view(s).push(widget_view(w)),
{
    lemma_seq_view_pointwise(s.push(w));
    lemma_seq_view_pointwise(s);
    assert(seq_view(s.push(w)) =~= seq_view(s).push(widget_view(w)));
}

impl PadV {
    /// All four insets lie in the coordinate space.
    pub open spec fn insets_wf(self) -> bool {
        &&& 0 <= self.left <= MAX_COORD as int
        &&& 0 <= self.right <= MAX_COORD as int
        &&& 0 <= self.top <= MAX_COORD as int
        &&& 0 <= self.bottom <= MAX_COORD as int
    }

    /// The box constraint a padding hands its child: origin moved by
    /// `(left, top)`, each available dimension reduced by the two opposing
    /// insets and clamped into `[0, available]`.
    pub open spec fn child_context_spec(self, ctx: Context) -> Context {
        Context {
            x: clamp_coord(ctx.x as int + self.left) as i64,
            y: clamp_coord(ctx.y as int + self.top) as i64,
            width: clamp_box(ctx.width as int - self.left - self.right, ctx.width as int) as i64,
            height: clamp_box(ctx.height as int - self.top - self.bottom, ctx.height as int) as i64,
        }
    }
}

impl CenterV {
    /// The insets a draw writes into the owned padding: half the box width on
    /// the horizontal axis, half the box height on the vertical one, both on
    /// `Both`; the untouched axis keeps its previous insets.
    pub open spec fn with_insets_spec(self, ctx: Context) -> CenterV {
        let half_w = ctx.width as int / 2;
        let half_h = ctx.height as int / 2;
        match self.direction {
            Direction::Horizontal => CenterV {
                child: PadV { left: half_w, right: half_w, ..self.child },
                direction: self.direction,
            },
            Direction::Vertical => CenterV {
                child: PadV { top: half_h, bottom: half_h, ..self.child },
                direction: self.direction,
            },
            Direction::Both => CenterV {
                child: PadV { left: half_w, right: half_w, top: half_h, bottom: half_h, ..self.child },
                direction: self.direction,
            },
        }
    }
}

impl ButtonV {
    /// Whether `(x, y)` lies inside the recorded hit rectangle, inclusive on
    /// all four edges.
    pub open spec fn hit_spec(self, x: int, y: int) -> bool {
        &&& x >= self.positions.0
        &&& y >= self.positions.1
        &&& x <= self.positions.2
        &&& y <= self.positions.3
    }
}

/// Whether the subtree contains a `Stateful` node.
pub open spec fn has_stateful(v: WidgetV) -> bool
    decreases v,
{
    match v {
        WidgetV::Text(_) => false,
        WidgetV::Triangle(_) => false,
        WidgetV::Padding(p) => opt_has_stateful(p.child),
        WidgetV::Center(c) => opt_has_stateful(c.child.child),
        WidgetV::Expand(e) => opt_has_stateful(e.child),
        WidgetV::List(l) => seq_has_stateful(l.children),
        WidgetV::Button(b) => opt_has_stateful(b.child),
        WidgetV::Stateful(_) => true,
    }
}

pub open spec fn opt_has_stateful(c: Option<Box<WidgetV>>) -> bool
    decreases c,
{
    match c {
        Some(b) => has_stateful(*b),
        None => false,
    }
}

pub open spec fn seq_has_stateful(s: Seq<WidgetV>) -> bool
    decreases s,
{
    exists|i: int| 0 <= i < s.len() && has_stateful(#[trigger] s[i])
}

/// The first component of the termination measure of every pass: a pass over
/// a tree with `Stateful` nodes steps into rebuilt subtrees, which a
/// well-formed pass table keeps free of further `Stateful` nodes.
pub open spec fn srank(v: WidgetV) -> int {
    if has_stateful(v) {
        1
    } else {
        0
    }
}

pub open spec fn opt_srank(c: Option<Box<WidgetV>>) -> int {
    if opt_has_stateful(c) {
        1
    } else {
        0
    }
}

pub open spec fn seq_srank(s: Seq<WidgetV>) -> int {
    if seq_has_stateful(s) {
        1
    } else {
        0
    }
}

/// Well-formedness of a subtree: every inset, fixed size and child in range,
/// and every `Padding` — including the one a `Center` owns — actually holding
/// the child it requires.  Building a padding or a center without a child is
/// a configuration error; the engine's passes refuse such a tree rather than
/// lay it out as silently empty.
pub open spec fn wf_widget(v: WidgetV) -> bool
    decreases v,
{
    match v {
        WidgetV::Text(_) => true,
        WidgetV::Triangle(_) => true,
        WidgetV::Padding(p) => wf_pad(p),
        WidgetV::Center(c) => wf_pad(c.child),
        WidgetV::Expand(e) => wf_opt(e.child),
        WidgetV::List(l) => wf_seq(l.children),
        WidgetV::Button(b) => {
            &&& wf_opt(b.child)
            &&& match b.width {
                Some(w) => 0 <= w <= MAX_COORD as int,
                None => true,
            }
            &&& match b.height {
                Some(h) => 0 <= h <= MAX_COORD as int,
                None => true,
            }
        },
        WidgetV::Stateful(_) => true,
    }
}

pub open spec fn wf_pad(p: PadV) -> bool
    decreases p,
{
    &&& p.insets_wf()
    &&& match p.child {
        Some(b) => wf_widget(*b),
        None => false,
    }
}

pub open spec fn wf_opt(c: Option<Box<WidgetV>>) -> bool
    decreases c,
{
    match c {
        Some(b) => wf_widget(*b),
        None => true,
    }
}

pub open spec fn wf_seq(s: Seq<WidgetV>) -> bool
    decreases s,
{
    forall|i: int| 0 <= i < s.len() ==> wf_widget(#[trigger] s[i])
}

/// The subtree a pass table files under a key: the first entry wins.
pub open spec fn lookup_spec(s: Seq<(u64, WidgetV)>, render: u64) -> Option<WidgetV>
    decreases s,
{
    if s.len() == 0 {
        None
    } else if s[0].0 == render {
        Some(s[0].1)
    } else {
        lookup_spec(s.drop_first(), render)
    }
}

/// A well-formed pass table: every filed subtree is itself well formed and
/// free of further `Stateful` nodes, so one level of lookup resolves a pass.
pub open spec fn subs_wf(s: Seq<(u64, WidgetV)>) -> bool {
    forall|i: int|
        0 <= i < s.len() ==> !has_stateful(#[trigger] s[i].1) && wf_widget(s[i].1)
}

/// What a successful lookup in a well-formed table yields.
pub proof fn lemma_lookup_wf(s: Seq<(u64, WidgetV)>, render: u64)
    requires
        subs_wf(s),
        lookup_spec(s, render) is Some,
    ensures
        !has_stateful(lookup_spec(s, render)->Some_0),
        wf_widget(lookup_spec(s, render)->Some_0),
    decreases s,
{
    if s.len() > 0 && s[0].0 != render {
        assert(forall|i: int|
            0 <= i < s.drop_first().len() ==> s.drop_first()[i] == s[i + 1]);
        lemma_lookup_wf(s.drop_first(), render);
    }
}

} // verus!
