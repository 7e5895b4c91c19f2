//! The layout formulas of the structural widgets, on concrete trees.

use yalem::canvas::{Canvas, DrawCmd};
use yalem::style::Color;
use yalem::widgets::{
    ButtonBuilder, Direction, ExpandBuilder, ListBuilder, PaddingBuilder, Rebuilds, TextBuilder,
    TriangleBuilder,
};
use yalem::{Context, Widget, MAX_COORD};

fn text(s: &str) -> Widget {
    Widget::Text(TextBuilder::new(s).build())
}

fn fixed_button(width: i64, height: i64) -> Widget {
    Widget::Button(
        ButtonBuilder::new()
            .background(Color::red())
            .width(width)
            .height(height)
            .build(),
    )
}

#[test]
fn padding_child_context_formula() {
    let p = PaddingBuilder::new((10, 20, 30, 40)).child(text("x")).build();
    let ctx = Context::new(5, 7, 100, 200);
    let cc = p.child_context(ctx);
    assert_eq!(cc.x, 15);
    assert_eq!(cc.y, 37);
    assert_eq!(cc.width, 100 - 10 - 20);
    assert_eq!(cc.height, 200 - 30 - 40);
}

#[test]
fn padding_child_context_clamps_to_zero() {
    let p = PaddingBuilder::new((60, 60, 150, 150)).child(text("x")).build();
    let ctx = Context::new(0, 0, 100, 200);
    let cc = p.child_context(ctx);
    assert_eq!(cc.x, 60);
    assert_eq!(cc.y, 150);
    assert_eq!(cc.width, 0);
    assert_eq!(cc.height, 0);
}

#[test]
fn end_to_end_padding_around_text() {
    // Padding(10,10,10,10) wrapping Text("Hi") inside a 100 by 100 context:
    // the child context is (10, 10, 80, 80).
    let p = PaddingBuilder::new((10, 10, 10, 10)).child(text("Hi")).build();
    let ctx = Context::new(0, 0, 100, 100);
    let cc = p.child_context(ctx);
    assert_eq!((cc.x, cc.y, cc.width, cc.height), (10, 10, 80, 80));

    // And the padded node measures as the text plus the insets.
    let subs = Rebuilds::new();
    let w = Widget::Padding(p);
    let (pw, ph) = w.get_size(&subs, ctx);
    assert_eq!((pw, ph), (2 * 6 + 20, 12 + 20));
}

#[test]
fn text_measures_by_character_count() {
    let subs = Rebuilds::new();
    let w = text("Hi");
    let (tw, th) = w.get_size(&subs, Context::new(0, 0, 100, 100));
    assert_eq!((tw, th), (12, 12));
}

#[test]
fn text_wider_than_box_clamps_and_doubles_height() {
    let subs = Rebuilds::new();
    let w = text("Hi");
    let (tw, th) = w.get_size(&subs, Context::new(0, 0, 10, 100));
    assert_eq!((tw, th), (10, 24));
}

#[test]
fn expand_horizontal_child_size() {
    // Expand{Horizontal} in context (x, y, w, h) around a child of intrinsic
    // height ch yields (w - x, ch).
    let subs = Rebuilds::new();
    let e = ExpandBuilder::new().direction(Direction::Horizontal).child(text("Hi")).build();
    let w = Widget::Expand(e);
    let (ew, eh) = w.get_size(&subs, Context::new(30, 0, 100, 100));
    assert_eq!((ew, eh), (70, 12));
}

#[test]
fn expand_vertical_child_size() {
    let subs = Rebuilds::new();
    let e = ExpandBuilder::new().direction(Direction::Vertical).child(text("Hi")).build();
    let w = Widget::Expand(e);
    let (ew, eh) = w.get_size(&subs, Context::new(0, 25, 100, 100));
    assert_eq!((ew, eh), (12, 75));
}

#[test]
fn expand_both_passes_context_through() {
    let subs = Rebuilds::new();
    let e = ExpandBuilder::new().direction(Direction::Both).child(text("Hi")).build();
    let w = Widget::Expand(e);
    let (ew, eh) = w.get_size(&subs, Context::new(3, 4, 100, 90));
    assert_eq!((ew, eh), (100, 90));
}

#[test]
fn expand_without_child_reports_incoming_box() {
    let subs = Rebuilds::new();
    let w = Widget::Expand(ExpandBuilder::new().build());
    let (ew, eh) = w.get_size(&subs, Context::new(0, 0, 100, 90));
    assert_eq!((ew, eh), (100, 90));
    let mut canvas = Canvas::new();
    let mut w = w;
    w.draw(&subs, Context::new(0, 0, 100, 90), &mut canvas);
    assert_eq!(canvas.cmds.len(), 0);
}

#[test]
fn list_stacks_children_with_cumulative_offsets() {
    // Children of measured heights [20, 30, 40] in a box of height 200 at
    // y = 0: draw-time y-offsets 0, 20, 50 and a returned height of 90.
    let subs = Rebuilds::new();
    let l = ListBuilder::new()
        .child(fixed_button(10, 20))
        .child(fixed_button(10, 30))
        .child(fixed_button(10, 40))
        .build();
    let mut w = Widget::List(l);
    let ctx = Context::new(0, 0, 100, 200);
    let (lw, lh) = w.get_size(&subs, ctx);
    assert_eq!((lw, lh), (100, 90));

    let mut canvas = Canvas::new();
    w.draw(&subs, ctx, &mut canvas);
    let offsets: Vec<i64> = (0..canvas.cmds.len())
        .map(|i| match canvas.cmd(i) {
            DrawCmd::FillRect { y, .. } => *y,
            other => panic!("unexpected primitive {:?}", other),
        })
        .collect();
    assert_eq!(offsets, vec![0, 20, 50]);
}

#[test]
fn empty_list_ends_where_it_starts() {
    let subs = Rebuilds::new();
    let w = Widget::List(ListBuilder::new().build());
    assert_eq!(w.get_size(&subs, Context::new(0, 0, 100, 200)), (100, 0));
    assert_eq!(w.get_size(&subs, Context::new(0, 35, 100, 200)), (100, 35));
}

#[test]
fn list_gives_children_only_remaining_room() {
    // The second child is offered only what is left below the first.
    let subs = Rebuilds::new();
    let l = ListBuilder::new().child(fixed_button(10, 80)).child(text("Hi")).build();
    let w = Widget::List(l);
    // Box of height 85 at y = 0: the text starts at y = 80 with 5 rows left;
    // its width 12 still fits, so the total is 80 + 12.
    let (_, lh) = w.get_size(&subs, Context::new(0, 0, 100, 85));
    assert_eq!(lh, 92);
}

#[test]
fn triangle_records_center_and_radius() {
    let subs = Rebuilds::new();
    let mut w = Widget::Triangle(TriangleBuilder::new().background(Color::blue()).build());
    let ctx = Context::new(0, 0, 100, 110);
    let mut canvas = Canvas::new();
    w.draw(&subs, ctx, &mut canvas);
    assert_eq!(canvas.cmds.len(), 1);
    match canvas.cmd(0) {
        DrawCmd::StrokeTriangle { x, y, radius, color } => {
            assert_eq!((*x, *y), (0, 10));
            // min(100, 110 - 10) = 100; 100 / 2 * 53 / 100 = 26.
            assert_eq!(*radius, 26);
            assert_eq!(*color, Color::blue());
        },
        other => panic!("unexpected primitive {:?}", other),
    }
}

#[test]
fn triangle_degenerate_box_clamps_radius_to_zero() {
    let subs = Rebuilds::new();
    let mut w = Widget::Triangle(TriangleBuilder::new().build());
    let mut canvas = Canvas::new();
    w.draw(&subs, Context::new(0, 0, 100, 5), &mut canvas);
    match canvas.cmd(0) {
        DrawCmd::StrokeTriangle { radius, .. } => assert_eq!(*radius, 0),
        other => panic!("unexpected primitive {:?}", other),
    }
}

#[test]
fn context_clamps_degenerate_values() {
    let c = Context::new(-5, -1, -100, 3);
    assert_eq!((c.x, c.y, c.width, c.height), (0, 0, 0, 3));
    let c = Context::new(0, 0, i64::MAX, 7);
    assert_eq!(c.width, MAX_COORD);
}

#[test]
fn padding_builder_clamps_insets() {
    let p = PaddingBuilder::new((-4, 2, 3, -9)).child(text("x")).build();
    assert_eq!((p.left, p.right, p.top, p.bottom), (0, 2, 3, 0));
}

#[test]
fn measure_is_idempotent_without_draw() {
    let subs = Rebuilds::new();
    let p = PaddingBuilder::new((5, 5, 5, 5))
        .child(Widget::Expand(
            ExpandBuilder::new().direction(Direction::Horizontal).child(text("abc")).build(),
        ))
        .build();
    let w = Widget::Padding(p);
    let ctx = Context::new(0, 0, 123, 77);
    let first = w.get_size(&subs, ctx);
    let second = w.get_size(&subs, ctx);
    assert_eq!(first, second);
}
