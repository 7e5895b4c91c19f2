//! The layout engine: the measuring pass over the widget tree.
//!
//! `measure_spec` is the mathematical meaning of `Widget::get_size`: a pure
//! function of the node's configuration, the pass table and the incoming
//! context.  Calling `get_size` twice with the same arguments therefore
//! yields the same answer; only a `draw` in between can change it, and only
//! for a `Center`, whose insets the draw rewrites.

use vstd::prelude::*;

use crate::canvas::{Canvas, DrawCmdV};
use crate::model::{
    has_stateful, lemma_lookup_wf, lemma_seq_view_pointwise, lemma_seq_view_push, lookup_spec, opt_srank,
    seq_has_stateful, seq_srank, seq_view, srank, subs_wf, wf_pad, wf_seq, wf_widget, ButtonV,
    CenterV, ExpandV, ListV, PadV, WidgetV,
};
use crate::widgets::center::Direction;
use crate::widgets::padding::Padding;
use crate::widgets::stateful::Rebuilds;
use crate::widgets::text::{text_cmd_spec, text_size_spec};
use crate::widgets::triangle::triangle_cmd_spec;
use crate::{
    clamp_coord, clamp_to_coord, Context, MouseButton, Widget, YalemEvent, YalemMouse, MAX_COORD,
};

verus! {

/// The measured size of a node inside `ctx`, under the pass table `subs`.
///
/// This is a pure function of configuration, table and context: it is what
/// makes measurement idempotent.  A `Stateful` node measures as the subtree
/// filed under its key, and as an empty box if the table has none.
pub open spec fn measure_spec(v: WidgetV, subs: Seq<(u64, WidgetV)>, ctx: Context) -> (int, int)
    decreases srank(v), v,
{
    match v {
        WidgetV::Text(t) => text_size_spec(t.text, ctx),
        WidgetV::Triangle(_) => (ctx.width as int, ctx.height as int),
        WidgetV::Padding(p) => measure_pad_spec(p, subs, ctx),
        WidgetV::Center(c) => measure_pad_spec(c.child, subs, ctx),
        WidgetV::Expand(e) => match e.child {
            None => (ctx.width as int, ctx.height as int),
            Some(b) => {
                let cs = measure_spec(*b, subs, ctx);
                match e.direction {
                    Direction::Horizontal => (clamp_coord(ctx.width as int - ctx.x as int), cs.1),
                    Direction::Vertical => (cs.0, clamp_coord(ctx.height as int - ctx.y as int)),
                    Direction::Both => (ctx.width as int, ctx.height as int),
                }
            },
        },
        WidgetV::List(l) => (
            ctx.width as int,
            measure_list_spec(l.children, subs, ctx, ctx.y as int),
        ),
        WidgetV::Button(b) => {
            let cs = match b.child {
                None => (0int, 0int),
                Some(c) => measure_spec(*c, subs, ctx),
            };
            (
                match b.width {
                    Some(w) => w,
                    None => cs.0,
                },
                match b.height {
                    Some(h) => h,
                    None => cs.1,
                },
            )
        },
        WidgetV::Stateful(s) => match lookup_spec(subs, s.render) {
            Some(sub) => if has_stateful(sub) {
                (0int, 0int)
            } else {
                measure_spec(sub, subs, ctx)
            },
            None => (0int, 0int),
        },
    }
}

/// The measured size of a padding node: the child, measured against the
/// inset context, plus the insets on each axis, capped at the coordinate
/// space.  A padding without its required child measures as an empty box;
/// well-formed trees rule that case out.
pub open spec fn measure_pad_spec(p: PadV, subs: Seq<(u64, WidgetV)>, ctx: Context) -> (int, int)
    decreases opt_srank(p.child), p,
{
    match p.child {
        Some(b) => {
            let cs = measure_spec(*b, subs, p.child_context_spec(ctx));
            (
                clamp_coord(cs.0 + p.left + p.right),
                clamp_coord(cs.1 + p.top + p.bottom),
            )
        },
        None => (0int, 0int),
    }
}

/// The context a list hands the child that starts at absolute offset `y`:
/// same origin column and width, and whatever vertical room is left between
/// `y` and the bottom edge of the original box.
pub open spec fn list_child_context_spec(ctx: Context, y: int) -> Context {
    Context {
        x: ctx.x,
        y: clamp_coord(y) as i64,
        width: ctx.width,
        height: clamp_coord(ctx.y as int + ctx.height as int - y) as i64,
    }
}

/// The final vertical offset after stacking `s` from offset `y` downward:
/// each child in order advances the offset by its measured height against
/// the room left below.
pub open spec fn measure_list_spec(
    s: Seq<WidgetV>,
    subs: Seq<(u64, WidgetV)>,
    ctx: Context,
    y: int,
) -> int
    decreases seq_srank(s), s,
{
    if s.len() == 0 {
        y
    } else {
        let ch = measure_spec(s[0], subs, list_child_context_spec(ctx, y)).1;
        measure_list_spec(s.drop_first(), subs, ctx, clamp_coord(y + ch))
    }
}

impl Widget {
    /// The space this node would occupy inside `ctx`: a pure, side-effect
    /// free query.  The result always lies in the coordinate space.
    pub fn get_size(&self, subs: &Rebuilds, ctx: Context) -> (s: (i64, i64))
        requires
            ctx.wf(),
            wf_widget(self@),
            subs_wf(subs@),
        ensures
            s.0 as int == measure_spec(self@, subs@, ctx).0,
            s.1 as int == measure_spec(self@, subs@, ctx).1,
            0 <= s.0 <= MAX_COORD,
            0 <= s.1 <= MAX_COORD,
        decreases srank(self@), *self,
    {
        match self {
            Widget::Text(t) => t.size_for(ctx),
            Widget::Triangle(_) => (ctx.width, ctx.height),
            Widget::Padding(p) => pad_size(p, subs, ctx),
            Widget::Center(c) => pad_size(&c.child, subs, ctx),
            Widget::Expand(e) => match &e.child {
                None => (ctx.width, ctx.height),
                Some(b) => {
                    let cs = b.get_size(subs, ctx);
                    match e.direction {
                        Direction::Horizontal => (clamp_to_coord(ctx.width - ctx.x), cs.1),
                        Direction::Vertical => (cs.0, clamp_to_coord(ctx.height - ctx.y)),
                        Direction::Both => (ctx.width, ctx.height),
                    }
                },
            },
            Widget::List(l) => {
                let y = list_advance(&l.children, subs, ctx, ctx.y);
                (ctx.width, y)
            },
            Widget::Button(b) => {
                let cs = match &b.child {
                    None => (0i64, 0i64),
                    Some(c) => c.get_size(subs, ctx),
                };
                let w = match b.width {
                    Some(w) => w,
                    None => cs.0,
                };
                let h = match b.height {
                    Some(h) => h,
                    None => cs.1,
                };
                (w, h)
            },
            Widget::Stateful(st) => match subs.lookup(st.render) {
                Some(sub) => {
                    proof {
                        lemma_lookup_wf(subs@, st.render);
                    }
                    sub.get_size(subs, ctx)
                },
                None => (0i64, 0i64),
            },
        }
    }
}

/// The measuring pass of a padding node (shared by `Padding` itself and by
/// the padding a `Center` owns).
pub(crate) fn pad_size(p: &Padding, subs: &Rebuilds, ctx: Context) -> (s: (i64, i64))
    requires
        ctx.wf(),
        wf_pad(p@),
        subs_wf(subs@),
    ensures
        s.0 as int == measure_pad_spec(p@, subs@, ctx).0,
        s.1 as int == measure_pad_spec(p@, subs@, ctx).1,
        0 <= s.0 <= MAX_COORD,
        0 <= s.1 <= MAX_COORD,
    decreases opt_srank(p@.child), *p,
{
    let cc = p.child_context(ctx);
    match &p.child {
        Some(b) => {
            let cs = b.get_size(subs, cc);
            (clamp_to_coord(cs.0 + p.left + p.right), clamp_to_coord(cs.1 + p.top + p.bottom))
        },
        None => (0, 0),
    }
}

/// The stacking loop of a list's measuring pass: the final vertical offset
/// after every child advanced it.
pub(crate) fn list_advance(children: &Vec<Widget>, subs: &Rebuilds, ctx: Context, start: i64) -> (y: i64)
    requires
        ctx.wf(),
        wf_seq(seq_view(children@)),
        subs_wf(subs@),
        0 <= start <= MAX_COORD,
    ensures
        y as int == measure_list_spec(seq_view(children@), subs@, ctx, start as int),
        0 <= y <= MAX_COORD,
    decreases seq_srank(seq_view(children@)), *children,
{
    let ghost vs = seq_view(children@);
    proof {
        crate::model::lemma_seq_view_pointwise(children@);
        assert(vs.skip(0) =~= vs);
    }
    let n = children.len();
    let mut y = start;
    let mut i: usize = 0;
    while i < n
        invariant
            ctx.wf(),
            subs_wf(subs@),
            wf_seq(vs),
            vs == seq_view(children@),
            vs.len() == n,
            n == children@.len(),
            i <= n,
            0 <= y <= MAX_COORD,
            measure_list_spec(vs.skip(i as int), subs@, ctx, y as int) == measure_list_spec(
                vs,
                subs@,
                ctx,
                start as int,
            ),
            forall|j: int| 0 <= j < n ==> vs[j] == crate::model::widget_view(children@[j]),
        decreases n - i,
    {
        proof {
            assert(vs.skip(i as int).len() > 0);
            assert(vs.skip(i as int)[0] == vs[i as int]);
        }
        let cctx = Context {
            x: ctx.x,
            y,
            width: ctx.width,
            height: clamp_to_coord(ctx.y + ctx.height - y),
        };
        proof {
            assert(cctx == list_child_context_spec(ctx, y as int));
            assert(wf_widget(vs[i as int]));
            if has_stateful(vs[i as int]) {
                assert(seq_has_stateful(vs));
            }
            if seq_has_stateful(vs.skip(i as int).drop_first()) {
                let k = choose|k: int|
                    0 <= k < vs.skip(i as int).drop_first().len() && has_stateful(
                        #[trigger] vs.skip(i as int).drop_first()[k],
                    );
                assert(vs.skip(i as int).drop_first()[k] == vs[i as int + 1 + k]);
                assert(seq_has_stateful(vs));
            }
        }
        let ch = children[i].get_size(subs, cctx).1;
        proof {
            assert(vs.skip(i as int).drop_first() =~= vs.skip(i as int + 1));
        }
        y = clamp_to_coord(y + ch);
        i += 1;
    }
    proof {
        assert(vs.skip(n as int).len() == 0);
    }
    y
}

// ---------------------------------------------------------------------------
// The draw pass.
// ---------------------------------------------------------------------------

/// The context an `Expand` draws its child in: the incoming box, widened to
/// the remaining space on the expanded axis(es), with the other dimension
/// taken from the child's measured size `cs`.
pub open spec fn expand_child_context_spec(
    direction: Direction,
    cs: (int, int),
    ctx: Context,
) -> Context {
    match direction {
        Direction::Horizontal => Context {
            width: clamp_coord(ctx.width as int - ctx.x as int) as i64,
            height: cs.1 as i64,
            ..ctx
        },
        Direction::Vertical => Context {
            width: cs.0 as i64,
            height: clamp_coord(ctx.height as int - ctx.y as int) as i64,
            ..ctx
        },
        Direction::Both => ctx,
    }
}

/// The meaning of one draw call: the primitives it records, in paint order,
/// and the node as the draw leaves it (hit rectangles recorded, centering
/// insets rewritten, everything else unchanged).
pub open spec fn draw_spec(v: WidgetV, subs: Seq<(u64, WidgetV)>, ctx: Context) -> (
    Seq<DrawCmdV>,
    WidgetV,
)
    decreases srank(v), v,
{
    match v {
        WidgetV::Text(t) => (seq![text_cmd_spec(t, ctx)], v),
        WidgetV::Triangle(t) => (seq![triangle_cmd_spec(t, ctx)], v),
        WidgetV::Padding(p) => {
            let r = draw_opt_spec(p.child, subs, p.child_context_spec(ctx));
            (r.0, WidgetV::Padding(PadV { child: r.1, ..p }))
        },
        WidgetV::Center(c) => {
            let c2 = c.with_insets_spec(ctx);
            let r = draw_opt_spec(c2.child.child, subs, c2.child.child_context_spec(ctx));
            (
                r.0,
                WidgetV::Center(
                    CenterV { child: PadV { child: r.1, ..c2.child }, direction: c.direction },
                ),
            )
        },
        WidgetV::Expand(e) => match e.child {
            None => (Seq::empty(), v),
            Some(b) => {
                let cs = measure_spec(*b, subs, ctx);
                let r = draw_spec(*b, subs, expand_child_context_spec(e.direction, cs, ctx));
                (r.0, WidgetV::Expand(ExpandV { child: Some(Box::new(r.1)), ..e }))
            },
        },
        WidgetV::List(l) => {
            let r = draw_list_spec(l.children, subs, ctx, ctx.y as int);
            (r.0, WidgetV::List(ListV { children: r.1 }))
        },
        WidgetV::Button(b) => {
            let cs = match b.child {
                None => (0int, 0int),
                Some(c) => measure_spec(*c, subs, ctx),
            };
            let w = match b.width {
                Some(w) => w,
                None => cs.0,
            };
            let h = match b.height {
                Some(h) => h,
                None => cs.1,
            };
            let rect = DrawCmdV::FillRect {
                x: ctx.x as int,
                y: ctx.y as int,
                width: w,
                height: h,
                color: b.background_color,
            };
            let r = draw_opt_spec(b.child, subs, ctx);
            (
                seq![rect] + r.0,
                WidgetV::Button(
                    ButtonV {
                        child: r.1,
                        positions: (
                            ctx.x as int,
                            ctx.y as int,
                            ctx.x as int + w,
                            ctx.y as int + h,
                        ),
                        ..b
                    },
                ),
            )
        },
        WidgetV::Stateful(s) => match lookup_spec(subs, s.render) {
            Some(sub) => if has_stateful(sub) {
                (Seq::empty(), v)
            } else {
                (draw_spec(sub, subs, ctx).0, v)
            },
            None => (Seq::empty(), v),
        },
    }
}

/// The draw pass through an optional child: the rebuilt option carries the
/// child as its draw left it.
pub open spec fn draw_opt_spec(
    c: Option<Box<WidgetV>>,
    subs: Seq<(u64, WidgetV)>,
    ctx: Context,
) -> (Seq<DrawCmdV>, Option<Box<WidgetV>>)
    decreases opt_srank(c), c,
{
    match c {
        None => (Seq::empty(), None),
        Some(b) => {
            let r = draw_spec(*b, subs, ctx);
            (r.0, Some(Box::new(r.1)))
        },
    }
}

/// The draw pass through a list's children: the same traversal as the
/// measuring pass, each child drawn at its derived context before the offset
/// advances by the child's measured height.
pub open spec fn draw_list_spec(
    s: Seq<WidgetV>,
    subs: Seq<(u64, WidgetV)>,
    ctx: Context,
    y: int,
) -> (Seq<DrawCmdV>, Seq<WidgetV>)
    decreases seq_srank(s), s,
{
    if s.len() == 0 {
        (Seq::empty(), Seq::empty())
    } else {
        let cctx = list_child_context_spec(ctx, y);
        let r0 = draw_spec(s[0], subs, cctx);
        let ch = measure_spec(s[0], subs, cctx).1;
        let rest = draw_list_spec(s.drop_first(), subs, ctx, clamp_coord(y + ch));
        (r0.0 + rest.0, seq![r0.1] + rest.1)
    }
}

impl Widget {
    /// Draws this node inside `ctx`: records the frame's primitives into the
    /// display list, rewrites centering insets, and records every button's
    /// hit rectangle.  The node afterwards, and the primitives appended, are
    /// exactly what [`draw_spec`] says.
    pub fn draw(&mut self, subs: &Rebuilds, ctx: Context, canvas: &mut Canvas)
        requires
            ctx.wf(),
            wf_widget(old(self)@),
            subs_wf(subs@),
        ensures
            final(self)@ == draw_spec(old(self)@, subs@, ctx).1,
            final(canvas)@ == old(canvas)@ + draw_spec(old(self)@, subs@, ctx).0,
            wf_widget(final(self)@),
        decreases srank(old(self)@), *old(self),
    {
        let ghost canvas0 = canvas@;
        match self {
            Widget::Text(t) => {
                canvas.push(t.cmd_for(ctx));
                proof {
                    assert(canvas@ =~= canvas0 + seq![text_cmd_spec(t@, ctx)]);
                }
            },
            Widget::Triangle(t) => {
                canvas.push(t.cmd_for(ctx));
                proof {
                    assert(canvas@ =~= canvas0 + seq![triangle_cmd_spec(t@, ctx)]);
                }
            },
            Widget::Padding(p) => {
                let cc = p.child_context(ctx);
                opt_draw(&mut p.child, subs, cc, canvas);
            },
            Widget::Center(c) => {
                c.set_insets(ctx);
                let cc = c.child.child_context(ctx);
                opt_draw(&mut c.child.child, subs, cc, canvas);
            },
            Widget::Expand(e) => {
                match &mut e.child {
                    None => {
                        proof {
                            assert(canvas@ =~= canvas0 + Seq::<DrawCmdV>::empty());
                        }
                    },
                    Some(b) => {
                        let cs = (&**b).get_size(subs, ctx);
                        let adj = match e.direction {
                            Direction::Horizontal => Context {
                                width: clamp_to_coord(ctx.width - ctx.x),
                                height: cs.1,
                                ..ctx
                            },
                            Direction::Vertical => Context {
                                width: cs.0,
                                height: clamp_to_coord(ctx.height - ctx.y),
                                ..ctx
                            },
                            Direction::Both => ctx,
                        };
                        proof {
                            assert(adj == expand_child_context_spec(
                                e.direction,
                                measure_spec(b@, subs@, ctx),
                                ctx,
                            ));
                        }
                        (&mut **b).draw(subs, adj, canvas);
                    },
                }
            },
            Widget::List(l) => {
                list_draw(&mut l.children, subs, ctx, canvas);
            },
            Widget::Button(b) => {
                let cs = match &b.child {
                    None => (0i64, 0i64),
                    Some(c) => (&**c).get_size(subs, ctx),
                };
                let w = match b.width {
                    Some(w) => w,
                    None => cs.0,
                };
                let h = match b.height {
                    Some(h) => h,
                    None => cs.1,
                };
                canvas.push(
                    crate::canvas::DrawCmd::FillRect {
                        x: ctx.x,
                        y: ctx.y,
                        width: w,
                        height: h,
                        color: b.background_color,
                    },
                );
                b.positions = (ctx.x, ctx.y, ctx.x + w, ctx.y + h);
                opt_draw(&mut b.child, subs, ctx, canvas);
                proof {
                    let dr = draw_spec(old(self)@, subs@, ctx);
                    assert(canvas@ =~= canvas0 + dr.0);
                }
            },
            Widget::Stateful(st) => {
                match subs.lookup(st.render) {
                    Some(sub) => {
                        proof {
                            lemma_lookup_wf(subs@, st.render);
                        }
                        sub.render_into(subs, ctx, canvas);
                    },
                    None => {
                        proof {
                            assert(canvas@ =~= canvas0 + Seq::<DrawCmdV>::empty());
                        }
                    },
                }
            },
        }
    }

    /// Draws a node without keeping what the draw would record in it: used
    /// for the freshly rebuilt subtree of a `Stateful`, which is discarded
    /// when the pass is over.  Only the recorded primitives remain.
    pub fn render_into(&self, subs: &Rebuilds, ctx: Context, canvas: &mut Canvas)
        requires
            ctx.wf(),
            wf_widget(self@),
            !has_stateful(self@),
            subs_wf(subs@),
        ensures
            final(canvas)@ == old(canvas)@ + draw_spec(self@, subs@, ctx).0,
        decreases *self,
    {
        let ghost canvas0 = canvas@;
        match self {
            Widget::Text(t) => {
                canvas.push(t.cmd_for(ctx));
                proof {
                    assert(canvas@ =~= canvas0 + seq![text_cmd_spec(t@, ctx)]);
                }
            },
            Widget::Triangle(t) => {
                canvas.push(t.cmd_for(ctx));
                proof {
                    assert(canvas@ =~= canvas0 + seq![triangle_cmd_spec(t@, ctx)]);
                }
            },
            Widget::Padding(p) => {
                let cc = p.child_context(ctx);
                opt_render(&p.child, subs, cc, canvas);
            },
            Widget::Center(c) => {
                let half_w = ctx.width / 2;
                let half_h = ctx.height / 2;
                let inset = match c.direction {
                    Direction::Horizontal => Padding {
                        left: half_w,
                        right: half_w,
                        top: c.child.top,
                        bottom: c.child.bottom,
                        child: None,
                    },
                    Direction::Vertical => Padding {
                        left: c.child.left,
                        right: c.child.right,
                        top: half_h,
                        bottom: half_h,
                        child: None,
                    },
                    Direction::Both => Padding {
                        left: half_w,
                        right: half_w,
                        top: half_h,
                        bottom: half_h,
                        child: None,
                    },
                };
                let cc = inset.child_context(ctx);
                proof {
                    assert(cc == c@.with_insets_spec(ctx).child.child_context_spec(ctx));
                }
                opt_render(&c.child.child, subs, cc, canvas);
            },
            Widget::Expand(e) => {
                match &e.child {
                    None => {
                        proof {
                            assert(canvas@ =~= canvas0 + Seq::<DrawCmdV>::empty());
                        }
                    },
                    Some(b) => {
                        let cs = (&**b).get_size(subs, ctx);
                        let adj = match e.direction {
                            Direction::Horizontal => Context {
                                width: clamp_to_coord(ctx.width - ctx.x),
                                height: cs.1,
                                ..ctx
                            },
                            Direction::Vertical => Context {
                                width: cs.0,
                                height: clamp_to_coord(ctx.height - ctx.y),
                                ..ctx
                            },
                            Direction::Both => ctx,
                        };
                        proof {
                            assert(adj == expand_child_context_spec(
                                e.direction,
                                measure_spec(b@, subs@, ctx),
                                ctx,
                            ));
                        }
                        (&**b).render_into(subs, adj, canvas);
                    },
                }
            },
            Widget::List(l) => {
                list_render(&l.children, subs, ctx, canvas);
            },
            Widget::Button(b) => {
                let cs = match &b.child {
                    None => (0i64, 0i64),
                    Some(c) => (&**c).get_size(subs, ctx),
                };
                let w = match b.width {
                    Some(w) => w,
                    None => cs.0,
                };
                let h = match b.height {
                    Some(h) => h,
                    None => cs.1,
                };
                canvas.push(
                    crate::canvas::DrawCmd::FillRect {
                        x: ctx.x,
                        y: ctx.y,
                        width: w,
                        height: h,
                        color: b.background_color,
                    },
                );
                opt_render(&b.child, subs, ctx, canvas);
                proof {
                    let dr = draw_spec(self@, subs@, ctx);
                    assert(canvas@ =~= canvas0 + dr.0);
                }
            },
            Widget::Stateful(_) => {
                proof {
                    assert(false);
                }
            },
        }
    }
}

/// The draw pass through an optional child slot, in place.
pub(crate) fn opt_draw(c: &mut Option<Box<Widget>>, subs: &Rebuilds, ctx: Context, canvas: &mut Canvas)
    requires
        ctx.wf(),
        crate::model::wf_opt(crate::model::opt_view(*old(c))),
        subs_wf(subs@),
    ensures
        crate::model::opt_view(*final(c)) == draw_opt_spec(
            crate::model::opt_view(*old(c)),
            subs@,
            ctx,
        ).1,
        final(canvas)@ == old(canvas)@ + draw_opt_spec(
            crate::model::opt_view(*old(c)),
            subs@,
            ctx,
        ).0,
        crate::model::wf_opt(crate::model::opt_view(*final(c))),
    decreases opt_srank(crate::model::opt_view(*old(c))), *old(c),
{
    let ghost canvas0 = canvas@;
    match c {
        None => {
            proof {
                assert(canvas@ =~= canvas0 + Seq::<DrawCmdV>::empty());
            }
        },
        Some(b) => {
            (&mut **b).draw(subs, ctx, canvas);
        },
    }
}

/// The rendering pass through an optional child slot.
pub(crate) fn opt_render(c: &Option<Box<Widget>>, subs: &Rebuilds, ctx: Context, canvas: &mut Canvas)
    requires
        ctx.wf(),
        crate::model::wf_opt(crate::model::opt_view(*c)),
        !crate::model::opt_has_stateful(crate::model::opt_view(*c)),
        subs_wf(subs@),
    ensures
        final(canvas)@ == old(canvas)@ + draw_opt_spec(
            crate::model::opt_view(*c),
            subs@,
            ctx,
        ).0,
    decreases *c,
{
    let ghost canvas0 = canvas@;
    match c {
        None => {
            proof {
                assert(canvas@ =~= canvas0 + Seq::<DrawCmdV>::empty());
            }
        },
        Some(b) => {
            (&**b).render_into(subs, ctx, canvas);
        },
    }
}

/// The stacking loop of a list's draw pass, in place.
pub(crate) fn list_draw(children: &mut Vec<Widget>, subs: &Rebuilds, ctx: Context, canvas: &mut Canvas)
    requires
        ctx.wf(),
        wf_seq(seq_view(old(children)@)),
        subs_wf(subs@),
    ensures
        seq_view(final(children)@) == draw_list_spec(
            seq_view(old(children)@),
            subs@,
            ctx,
            ctx.y as int,
        ).1,
        final(canvas)@ == old(canvas)@ + draw_list_spec(
            seq_view(old(children)@),
            subs@,
            ctx,
            ctx.y as int,
        ).0,
        wf_seq(seq_view(final(children)@)),
    decreases seq_srank(seq_view(old(children)@)), *old(children),
{
    let ghost cs0 = old(children)@;
    let ghost vs0 = seq_view(cs0);
    let ghost canvas0 = canvas@;
    let ghost full = draw_list_spec(vs0, subs@, ctx, ctx.y as int);
    proof {
        lemma_seq_view_pointwise(cs0);
        assert(vs0.skip(0) =~= vs0);
        assert(canvas0 + Seq::<DrawCmdV>::empty() =~= canvas0);
        assert(Seq::<WidgetV>::empty() + draw_list_spec(vs0, subs@, ctx, ctx.y as int).1 =~= full.1);
        assert(children@.take(0) =~= Seq::<Widget>::empty());
        lemma_seq_view_pointwise(Seq::<Widget>::empty());
        assert(seq_view(children@.take(0)) =~= Seq::<WidgetV>::empty());
        assert forall|j: int| 0 <= j < cs0.len() implies wf_widget(#[trigger] cs0[j]@) by {
            assert(vs0[j] == cs0[j]@);
            assert(wf_widget(vs0[j]));
        };
    }
    let n = children.len();
    let mut y = ctx.y;
    let mut i: usize = 0;
    while i < n
        invariant
            ctx.wf(),
            subs_wf(subs@),
            i <= n,
            n == children@.len(),
            n == cs0.len(),
            cs0 == old(children)@,
            vs0 == seq_view(cs0),
            full == draw_list_spec(vs0, subs@, ctx, ctx.y as int),
            0 <= y <= MAX_COORD,
            forall|j: int| i <= j < n ==> children@[j] == cs0[j],
            forall|j: int| 0 <= j < i ==> wf_widget(#[trigger] children@[j]@),
            forall|j: int| 0 <= j < n ==> wf_widget(#[trigger] cs0[j]@),
            forall|j: int| 0 <= j < n ==> vs0[j] == cs0[j]@,
            vs0.len() == n,
            canvas@ + draw_list_spec(vs0.skip(i as int), subs@, ctx, y as int).0 == canvas0
                + full.0,
            seq_view(children@.take(i as int)) + draw_list_spec(
                vs0.skip(i as int),
                subs@,
                ctx,
                y as int,
            ).1 == full.1,
        decreases n - i,
    {
        proof {
            assert(vs0.skip(i as int).len() > 0);
            assert(vs0.skip(i as int)[0] == vs0[i as int]);
            assert(children@[i as int] == cs0[i as int]);
            if has_stateful(cs0[i as int]@) {
                assert(seq_has_stateful(vs0)) by {
                    assert(has_stateful(vs0[i as int]));
                };
            }
        }
        let cctx = Context {
            x: ctx.x,
            y,
            width: ctx.width,
            height: clamp_to_coord(ctx.y + ctx.height - y),
        };
        proof {
            assert(cctx == list_child_context_spec(ctx, y as int));
        }
        let ghost canvas_before = canvas@;
        let ghost pre = children@;
        let ghost take_before = seq_view(pre.take(i as int));
        let ch = children[i].get_size(subs, cctx).1;
        proof {
            vstd::std_specs::vec::axiom_vec_index_decreases(*old(children), i as int);
        }
        (&mut children[i]).draw(subs, cctx, canvas);
        proof {
            let r0 = draw_spec(vs0[i as int], subs@, cctx);
            let rest = draw_list_spec(
                vs0.skip(i as int).drop_first(),
                subs@,
                ctx,
                clamp_coord(y as int + ch as int),
            );
            assert(vs0.skip(i as int).drop_first() =~= vs0.skip(i as int + 1));
            assert(canvas@ =~= canvas_before + r0.0);
            assert(canvas@ + rest.0 =~= canvas_before + (r0.0 + rest.0));
            assert(children@.take(i as int) =~= pre.take(i as int));
            assert(children@.take(i as int + 1) =~= children@.take(i as int).push(
                children@[i as int],
            ));
            lemma_seq_view_push(children@.take(i as int), children@[i as int]);
            assert(children@[i as int]@ == r0.1);
            assert(seq_view(children@.take(i as int + 1)) == take_before.push(r0.1));
            assert(take_before.push(r0.1) + rest.1 =~= take_before + (seq![r0.1] + rest.1));
        }
        y = clamp_to_coord(y + ch);
        i += 1;
    }
    proof {
        assert(vs0.skip(n as int).len() == 0);
        assert(canvas@ + Seq::<DrawCmdV>::empty() =~= canvas@);
        assert(children@.take(n as int) =~= children@);
        assert(seq_view(children@) + Seq::<WidgetV>::empty() =~= seq_view(children@));
        lemma_seq_view_pointwise(children@);
        assert forall|k: int| 0 <= k < seq_view(children@).len() implies wf_widget(
            #[trigger] seq_view(children@)[k],
        ) by {
            assert(seq_view(children@)[k] == children@[k]@);
            assert(wf_widget(children@[k]@));
        };
    }
}

/// The stacking loop of a list's rendering pass.
pub(crate) fn list_render(children: &Vec<Widget>, subs: &Rebuilds, ctx: Context, canvas: &mut Canvas)
    requires
        ctx.wf(),
        wf_seq(seq_view(children@)),
        !seq_has_stateful(seq_view(children@)),
        subs_wf(subs@),
    ensures
        final(canvas)@ == old(canvas)@ + draw_list_spec(
            seq_view(children@),
            subs@,
            ctx,
            ctx.y as int,
        ).0,
    decreases *children,
{
    let ghost vs0 = seq_view(children@);
    let ghost canvas0 = canvas@;
    let ghost full = draw_list_spec(vs0, subs@, ctx, ctx.y as int);
    proof {
        lemma_seq_view_pointwise(children@);
        assert(vs0.skip(0) =~= vs0);
        assert(canvas0 + Seq::<DrawCmdV>::empty() =~= canvas0);
        assert forall|j: int| 0 <= j < children@.len() implies wf_widget(
            #[trigger] children@[j]@,
        ) by {
            assert(vs0[j] == children@[j]@);
            assert(wf_widget(vs0[j]));
        };
    }
    let n = children.len();
    let mut y = ctx.y;
    let mut i: usize = 0;
    while i < n
        invariant
            ctx.wf(),
            subs_wf(subs@),
            i <= n,
            n == children@.len(),
            0 <= y <= MAX_COORD,
            vs0 == seq_view(children@),
            full == draw_list_spec(vs0, subs@, ctx, ctx.y as int),
            vs0.len() == n,
            !seq_has_stateful(vs0),
            forall|j: int| 0 <= j < n ==> wf_widget(#[trigger] children@[j]@),
            forall|j: int| 0 <= j < n ==> vs0[j] == children@[j]@,
            canvas@ + draw_list_spec(vs0.skip(i as int), subs@, ctx, y as int).0 == canvas0
                + full.0,
        decreases n - i,
    {
        proof {
            assert(vs0.skip(i as int).len() > 0);
            assert(vs0.skip(i as int)[0] == vs0[i as int]);
            assert(!has_stateful(vs0[i as int]));
        }
        let cctx = Context {
            x: ctx.x,
            y,
            width: ctx.width,
            height: clamp_to_coord(ctx.y + ctx.height - y),
        };
        proof {
            assert(cctx == list_child_context_spec(ctx, y as int));
        }
        let ghost canvas_before = canvas@;
        let ch = children[i].get_size(subs, cctx).1;
        (&children[i]).render_into(subs, cctx, canvas);
        proof {
            let r0 = draw_spec(vs0[i as int], subs@, cctx);
            let rest = draw_list_spec(
                vs0.skip(i as int).drop_first(),
                subs@,
                ctx,
                clamp_coord(y as int + ch as int),
            );
            assert(vs0.skip(i as int).drop_first() =~= vs0.skip(i as int + 1));
            assert(canvas@ =~= canvas_before + r0.0);
            assert(canvas@ + rest.0 =~= canvas_before + (r0.0 + rest.0));
        }
        y = clamp_to_coord(y + ch);
        i += 1;
    }
    proof {
        assert(vs0.skip(n as int).len() == 0);
        assert(canvas@ + Seq::<DrawCmdV>::empty() =~= canvas@);
    }
}

// ---------------------------------------------------------------------------
// Event dispatch.
// ---------------------------------------------------------------------------

/// The click actions a button itself reports for one event: its configured
/// action, exactly once, when the event is a left press whose position lies
/// inside the rectangle recorded by the most recent draw; nothing otherwise.
pub open spec fn button_fire_spec(b: ButtonV, ev: YalemEvent) -> Seq<u64> {
    match ev {
        YalemEvent::YalemMouse(YalemMouse::Pressed { button, x, y }) => {
            if button == MouseButton::Left && b.callback is Some && b.hit_spec(
                x as int,
                y as int,
            ) {
                seq![b.callback->Some_0]
            } else {
                Seq::empty()
            }
        },
    }
}

/// The click actions one dispatch reports, in order.  Every node of the
/// subtree sees every event — there is no consumption or stop-propagation
/// signal — and a container forwards to its children before reacting itself,
/// so a button's own action follows its child's.
pub open spec fn dispatch_spec(v: WidgetV, subs: Seq<(u64, WidgetV)>, ev: YalemEvent) -> Seq<u64>
    decreases srank(v), v,
{
    match v {
        WidgetV::Text(_) => Seq::empty(),
        WidgetV::Triangle(_) => Seq::empty(),
        WidgetV::Padding(p) => opt_dispatch_spec(p.child, subs, ev),
        WidgetV::Center(c) => opt_dispatch_spec(c.child.child, subs, ev),
        WidgetV::Expand(e) => opt_dispatch_spec(e.child, subs, ev),
        WidgetV::List(l) => list_dispatch_spec(l.children, subs, ev),
        WidgetV::Button(b) => opt_dispatch_spec(b.child, subs, ev) + button_fire_spec(b, ev),
        WidgetV::Stateful(s) => match lookup_spec(subs, s.render) {
            Some(sub) => if has_stateful(sub) {
                Seq::empty()
            } else {
                dispatch_spec(sub, subs, ev)
            },
            None => Seq::empty(),
        },
    }
}

pub open spec fn opt_dispatch_spec(
    c: Option<Box<WidgetV>>,
    subs: Seq<(u64, WidgetV)>,
    ev: YalemEvent,
) -> Seq<u64>
    decreases opt_srank(c), c,
{
    match c {
        None => Seq::empty(),
        Some(b) => dispatch_spec(*b, subs, ev),
    }
}

pub open spec fn list_dispatch_spec(
    s: Seq<WidgetV>,
    subs: Seq<(u64, WidgetV)>,
    ev: YalemEvent,
) -> Seq<u64>
    decreases seq_srank(s), s,
{
    if s.len() == 0 {
        Seq::empty()
    } else {
        dispatch_spec(s[0], subs, ev) + list_dispatch_spec(s.drop_first(), subs, ev)
    }
}

impl Widget {
    /// Broadcasts an event through the subtree, appending the click action of
    /// every button the event hits, in dispatch order, to `fired`.  The tree
    /// itself is not changed by dispatch; the platform layer runs the
    /// callbacks the reported actions stand for.
    pub fn send_event(&self, subs: &Rebuilds, event: &YalemEvent, fired: &mut Vec<u64>)
        requires
            subs_wf(subs@),
        ensures
            final(fired)@ == old(fired)@ + dispatch_spec(self@, subs@, *event),
        decreases srank(self@), *self,
    {
        let ghost fired0 = fired@;
        match self {
            Widget::Text(_) => {
                proof {
                    assert(fired@ =~= fired0 + Seq::<u64>::empty());
                }
            },
            Widget::Triangle(_) => {
                proof {
                    assert(fired@ =~= fired0 + Seq::<u64>::empty());
                }
            },
            Widget::Padding(p) => {
                opt_send_event(&p.child, subs, event, fired);
            },
            Widget::Center(c) => {
                opt_send_event(&c.child.child, subs, event, fired);
            },
            Widget::Expand(e) => {
                opt_send_event(&e.child, subs, event, fired);
            },
            Widget::List(l) => {
                list_send_event(&l.children, subs, event, fired);
            },
            Widget::Button(b) => {
                opt_send_event(&b.child, subs, event, fired);
                let YalemEvent::YalemMouse(YalemMouse::Pressed { button, x, y }) = *event;
                if let Some(action) = b.callback {
                    if matches!(button, MouseButton::Left) && b.hit_test(x, y) {
                        fired.push(action);
                    }
                }
                proof {
                    assert(fired@ =~= fired0 + (opt_dispatch_spec(b@.child, subs@, *event)
                        + button_fire_spec(b@, *event)));
                }
            },
            Widget::Stateful(st) => {
                match subs.lookup(st.render) {
                    Some(sub) => {
                        proof {
                            lemma_lookup_wf(subs@, st.render);
                        }
                        sub.send_event(subs, event, fired);
                    },
                    None => {
                        proof {
                            assert(fired@ =~= fired0 + Seq::<u64>::empty());
                        }
                    },
                }
            },
        }
    }
}

/// Event broadcast through an optional child slot.
pub(crate) fn opt_send_event(
    c: &Option<Box<Widget>>,
    subs: &Rebuilds,
    event: &YalemEvent,
    fired: &mut Vec<u64>,
)
    requires
        subs_wf(subs@),
    ensures
        final(fired)@ == old(fired)@ + opt_dispatch_spec(
            crate::model::opt_view(*c),
            subs@,
            *event,
        ),
    decreases opt_srank(crate::model::opt_view(*c)), *c,
{
    let ghost fired0 = fired@;
    match c {
        None => {
            proof {
                assert(fired@ =~= fired0 + Seq::<u64>::empty());
            }
        },
        Some(b) => {
            (&**b).send_event(subs, event, fired);
        },
    }
}

/// Event broadcast through a list's children, in order.
pub(crate) fn list_send_event(
    children: &Vec<Widget>,
    subs: &Rebuilds,
    event: &YalemEvent,
    fired: &mut Vec<u64>,
)
    requires
        subs_wf(subs@),
    ensures
        final(fired)@ == old(fired)@ + list_dispatch_spec(
            seq_view(children@),
            subs@,
            *event,
        ),
    decreases seq_srank(seq_view(children@)), *children,
{
    let ghost vs = seq_view(children@);
    let ghost fired0 = fired@;
    let ghost full = list_dispatch_spec(vs, subs@, *event);
    proof {
        lemma_seq_view_pointwise(children@);
        assert(vs.skip(0) =~= vs);
        assert(fired0 + Seq::<u64>::empty() =~= fired0);
    }
    let n = children.len();
    let mut i: usize = 0;
    while i < n
        invariant
            subs_wf(subs@),
            i <= n,
            n == children@.len(),
            vs == seq_view(children@),
            full == list_dispatch_spec(vs, subs@, *event),
            vs.len() == n,
            forall|j: int| 0 <= j < n ==> vs[j] == children@[j]@,
            fired@ + list_dispatch_spec(vs.skip(i as int), subs@, *event) == fired0 + full,
        decreases n - i,
    {
        proof {
            assert(vs.skip(i as int).len() > 0);
            assert(vs.skip(i as int)[0] == vs[i as int]);
            if has_stateful(vs[i as int]) {
                assert(seq_has_stateful(vs));
            }
        }
        let ghost fired_before = fired@;
        children[i].send_event(subs, event, fired);
        proof {
            let r0 = dispatch_spec(vs[i as int], subs@, *event);
            let rest = list_dispatch_spec(vs.skip(i as int).drop_first(), subs@, *event);
            assert(vs.skip(i as int).drop_first() =~= vs.skip(i as int + 1));
            assert(fired@ =~= fired_before + r0);
            assert(fired@ + rest =~= fired_before + (r0 + rest));
        }
        i += 1;
    }
    proof {
        assert(vs.skip(n as int).len() == 0);
        assert(fired@ + Seq::<u64>::empty() =~= fired@);
    }
}

// ---------------------------------------------------------------------------
// Executable well-formedness checks, for callers outside verified code.
// ---------------------------------------------------------------------------

impl Widget {
    /// Whether this subtree satisfies [`wf_widget`]: every configured length
    /// inside the coordinate space and every padding holding its required
    /// child.  The layout passes ask for a well-formed tree; an unverified
    /// caller checks with this and fails loudly instead of calling in.
    pub fn is_well_formed(&self) -> (r: bool)
        ensures
            r == wf_widget(self@),
        decreases *self,
    {
        match self {
            Widget::Text(_) => true,
            Widget::Triangle(_) => true,
            Widget::Padding(p) => pad_well_formed(p),
            Widget::Center(c) => pad_well_formed(&c.child),
            Widget::Expand(e) => opt_well_formed(&e.child),
            Widget::List(l) => list_well_formed(&l.children),
            Widget::Button(b) => {
                let size_ok = match b.width {
                    Some(w) => 0 <= w && w <= MAX_COORD,
                    None => true,
                } && match b.height {
                    Some(h) => 0 <= h && h <= MAX_COORD,
                    None => true,
                };
                size_ok && opt_well_formed(&b.child)
            },
            Widget::Stateful(_) => true,
        }
    }

    /// Whether the subtree contains a `Stateful` node.  A subtree filed in
    /// the pass table may not: one lookup must resolve a pass.
    pub fn contains_stateful(&self) -> (r: bool)
        ensures
            r == has_stateful(self@),
        decreases *self,
    {
        match self {
            Widget::Text(_) => false,
            Widget::Triangle(_) => false,
            Widget::Padding(p) => opt_contains_stateful(&p.child),
            Widget::Center(c) => opt_contains_stateful(&c.child.child),
            Widget::Expand(e) => opt_contains_stateful(&e.child),
            Widget::List(l) => list_contains_stateful(&l.children),
            Widget::Button(b) => opt_contains_stateful(&b.child),
            Widget::Stateful(_) => true,
        }
    }
}

pub(crate) fn pad_well_formed(p: &Padding) -> (r: bool)
    ensures
        r == wf_pad(p@),
    decreases *p,
{
    let insets_ok = 0 <= p.left && p.left <= MAX_COORD && 0 <= p.right && p.right <= MAX_COORD
        && 0 <= p.top && p.top <= MAX_COORD && 0 <= p.bottom && p.bottom <= MAX_COORD;
    insets_ok && match &p.child {
        Some(b) => (&**b).is_well_formed(),
        None => false,
    }
}

pub(crate) fn opt_well_formed(c: &Option<Box<Widget>>) -> (r: bool)
    ensures
        r == crate::model::wf_opt(crate::model::opt_view(*c)),
    decreases *c,
{
    match c {
        Some(b) => (&**b).is_well_formed(),
        None => true,
    }
}

pub(crate) fn opt_contains_stateful(c: &Option<Box<Widget>>) -> (r: bool)
    ensures
        r == crate::model::opt_has_stateful(crate::model::opt_view(*c)),
    decreases *c,
{
    match c {
        Some(b) => (&**b).contains_stateful(),
        None => false,
    }
}

/// Whether every child of a list is well formed.
pub(crate) fn list_well_formed(children: &Vec<Widget>) -> (r: bool)
    ensures
        r == wf_seq(seq_view(children@)),
    decreases *children,
{
    let ghost vs = seq_view(children@);
    proof {
        lemma_seq_view_pointwise(children@);
    }
    let n = children.len();
    let mut i: usize = 0;
    let mut ok = true;
    while i < n
        invariant
            i <= n,
            n == children@.len(),
            vs == seq_view(children@),
            vs.len() == n,
            forall|j: int| 0 <= j < n ==> vs[j] == children@[j]@,
            ok == forall|j: int| 0 <= j < i ==> wf_widget(#[trigger] vs[j]),
        decreases n - i,
    {
        let wfi = children[i].is_well_formed();
        let both = ok && wfi;
        proof {
            assert(vs[i as int] == children@[i as int]@);
            if both {
                assert forall|j: int| 0 <= j < i + 1 implies wf_widget(#[trigger] vs[j]) by {
                    if j == i {
                        assert(wf_widget(vs[j]));
                    }
                };
            }
        }
        ok = both;
        i += 1;
    }
    ok
}

/// Whether any child of a list contains a `Stateful` node.
pub(crate) fn list_contains_stateful(children: &Vec<Widget>) -> (r: bool)
    ensures
        r == seq_has_stateful(seq_view(children@)),
    decreases *children,
{
    let ghost vs = seq_view(children@);
    proof {
        lemma_seq_view_pointwise(children@);
    }
    let n = children.len();
    let mut i: usize = 0;
    let mut found = false;
    while i < n
        invariant
            i <= n,
            n == children@.len(),
            vs == seq_view(children@),
            vs.len() == n,
            forall|j: int| 0 <= j < n ==> vs[j] == children@[j]@,
            found == exists|j: int| 0 <= j < i && has_stateful(#[trigger] vs[j]),
        decreases n - i,
    {
        let hit = children[i].contains_stateful();
        proof {
            assert(vs[i as int] == children@[i as int]@);
            if hit {
                assert(has_stateful(vs[i as int]));
                assert(exists|j: int| 0 <= j < i + 1 && has_stateful(#[trigger] vs[j]));
            }
        }
        if hit {
            found = true;
        }
        i += 1;
    }
    proof {
        if found {
            assert(seq_has_stateful(vs));
        }
    }
    found
}

impl Rebuilds {
    /// Whether every filed subtree is well formed and free of further
    /// `Stateful` nodes — what every pass asks of its table.
    pub fn is_well_formed(&self) -> (r: bool)
        ensures
            r == subs_wf(self@),
    {
        let n = self.entries.len();
        let mut i: usize = 0;
        let mut ok = true;
        while i < n
            invariant
                i <= n,
                n == self.entries@.len(),
                n == self@.len(),
                forall|j: int| 0 <= j < n ==> self@[j].1 == self.entries@[j].1@,
                ok == forall|j: int|
                    0 <= j < i ==> !has_stateful(#[trigger] self@[j].1) && wf_widget(self@[j].1),
            decreases n - i,
        {
            let good = !self.entries[i].1.contains_stateful() && self.entries[i].1.is_well_formed();
            let both = ok && good;
            proof {
                assert(self@[i as int].1 == self.entries@[i as int].1@);
                if both {
                    assert forall|j: int| 0 <= j < i + 1 implies !has_stateful(
                        #[trigger] self@[j].1,
                    ) && wf_widget(self@[j].1) by {
                        if j == i {
                            assert(!has_stateful(self@[j].1) && wf_widget(self@[j].1));
                        }
                    };
                }
            }
            ok = both;
            i += 1;
        }
        ok
    }
}

// ---------------------------------------------------------------------------
// The laws of the structural widgets.
// ---------------------------------------------------------------------------

/// The centering law: after a draw on both axes with a context of width `W`
/// and height `H`, the internally derived insets equal
/// `(W / 2, W / 2, H / 2, H / 2)` for `(left, right, top, bottom)`.
pub proof fn lemma_center_insets_after_draw(
    c: CenterV,
    subs: Seq<(u64, WidgetV)>,
    ctx: Context,
)
    requires
        c.direction == Direction::Both,
    ensures
        ({
            let out = draw_spec(WidgetV::Center(c), subs, ctx).1;
            &&& out matches WidgetV::Center(c2)
            &&& out->Center_0.child.left == ctx.width as int / 2
            &&& out->Center_0.child.right == ctx.width as int / 2
            &&& out->Center_0.child.top == ctx.height as int / 2
            &&& out->Center_0.child.bottom == ctx.height as int / 2
        }),
{
}

/// The expansion law: expanding horizontally inside context `(x, y, w, h)`
/// around a child of intrinsic measured height `ch` yields the size
/// `(w - x, ch)`, the width clamped into the coordinate space.
pub proof fn lemma_expand_horizontal(e: ExpandV, subs: Seq<(u64, WidgetV)>, ctx: Context)
    requires
        e.direction == Direction::Horizontal,
        e.child is Some,
    ensures
        measure_spec(WidgetV::Expand(e), subs, ctx) == (
            clamp_coord(ctx.width as int - ctx.x as int),
            measure_spec(*e.child->Some_0, subs, ctx).1,
        ),
        draw_spec(WidgetV::Expand(e), subs, ctx).0 == draw_spec(
            *e.child->Some_0,
            subs,
            expand_child_context_spec(
                Direction::Horizontal,
                measure_spec(*e.child->Some_0, subs, ctx),
                ctx,
            ),
        ).0,
{
}

/// The button sizing and hit-recording law: a draw fills, and records as the
/// hit rectangle, the box at the context origin whose size follows the one
/// precedence rule — a configured fixed width or height always wins over the
/// child's intrinsic measured size, which wins over zero.
pub proof fn lemma_button_draw_records_rect(
    b: ButtonV,
    subs: Seq<(u64, WidgetV)>,
    ctx: Context,
)
    ensures
        ({
            let size = (
                match b.width {
                    Some(w) => w,
                    None => match b.child {
                        None => 0int,
                        Some(c) => measure_spec(*c, subs, ctx).0,
                    },
                },
                match b.height {
                    Some(h) => h,
                    None => match b.child {
                        None => 0int,
                        Some(c) => measure_spec(*c, subs, ctx).1,
                    },
                },
            );
            let out = draw_spec(WidgetV::Button(b), subs, ctx).1;
            &&& out matches WidgetV::Button(b2)
            &&& out->Button_0.positions == (
                ctx.x as int,
                ctx.y as int,
                ctx.x as int + size.0,
                ctx.y as int + size.1,
            )
            &&& measure_spec(WidgetV::Button(b), subs, ctx) == size
        }),
{
}

/// The click law: dispatching an event to a button reports, after whatever
/// its child reports, the configured action exactly once if the event is a
/// left press inside the recorded hit rectangle, and nothing otherwise.
pub proof fn lemma_button_click(b: ButtonV, subs: Seq<(u64, WidgetV)>, ev: YalemEvent)
    ensures
        ({
            let YalemEvent::YalemMouse(YalemMouse::Pressed { button, x, y }) = ev;
            let own = dispatch_spec(WidgetV::Button(b), subs, ev);
            let child = opt_dispatch_spec(b.child, subs, ev);
            if button == MouseButton::Left && b.callback is Some && b.hit_spec(
                x as int,
                y as int,
            ) {
                own == child.push(b.callback->Some_0)
            } else {
                own == child
            }
        }),
{
    let YalemEvent::YalemMouse(YalemMouse::Pressed { button, x, y }) = ev;
    let child = opt_dispatch_spec(b.child, subs, ev);
    if button == MouseButton::Left && b.callback is Some && b.hit_spec(x as int, y as int) {
        assert(child + seq![b.callback->Some_0] =~= child.push(b.callback->Some_0));
    } else {
        assert(child + Seq::<u64>::empty() =~= child);
    }
}

} // verus!

