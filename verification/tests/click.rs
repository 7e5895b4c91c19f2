//! Button sizing, hit-rectangle recording, and click dispatch.

use yalem::canvas::{Canvas, DrawCmd};
use yalem::style::Color;
use yalem::widgets::{ButtonBuilder, ListBuilder, Rebuilds, TextBuilder};
use yalem::{Context, MouseButton, Widget, YalemEvent, YalemMouse};

fn press(button: MouseButton, x: i64, y: i64) -> YalemEvent {
    YalemEvent::YalemMouse(YalemMouse::Pressed { button, x, y })
}

fn left_press(x: i64, y: i64) -> YalemEvent {
    press(MouseButton::Left, x, y)
}

#[test]
fn button_press_inside_fires_exactly_once() {
    // A button fixed to 80 by 20, drawn at the context origin (0, 0): a left
    // press at (10, 10) invokes the action exactly once; one at (90, 30)
    // does not.
    let subs = Rebuilds::new();
    let mut w = Widget::Button(
        ButtonBuilder::new().width(80).height(20).background(Color::red()).on_click(7).build(),
    );
    let mut canvas = Canvas::new();
    w.draw(&subs, Context::new(0, 0, 300, 300), &mut canvas);

    let mut fired: Vec<u64> = Vec::new();
    w.send_event(&subs, &left_press(10, 10), &mut fired);
    assert_eq!(fired, vec![7]);

    let mut fired: Vec<u64> = Vec::new();
    w.send_event(&subs, &left_press(90, 30), &mut fired);
    assert_eq!(fired, Vec::<u64>::new());
}

#[test]
fn button_hit_rectangle_is_inclusive() {
    let subs = Rebuilds::new();
    let mut w = Widget::Button(ButtonBuilder::new().width(80).height(20).on_click(1).build());
    let mut canvas = Canvas::new();
    w.draw(&subs, Context::new(0, 0, 300, 300), &mut canvas);

    for (x, y, hits) in [
        (0, 0, true),
        (80, 20, true),
        (80, 21, false),
        (81, 20, false),
        (-1, 0, false),
    ] {
        let mut fired: Vec<u64> = Vec::new();
        w.send_event(&subs, &left_press(x, y), &mut fired);
        assert_eq!(fired.len() == 1, hits, "press at ({}, {})", x, y);
    }
}

#[test]
fn button_ignores_other_mouse_buttons() {
    let subs = Rebuilds::new();
    let mut w = Widget::Button(ButtonBuilder::new().width(80).height(20).on_click(1).build());
    let mut canvas = Canvas::new();
    w.draw(&subs, Context::new(0, 0, 300, 300), &mut canvas);

    let mut fired: Vec<u64> = Vec::new();
    w.send_event(&subs, &press(MouseButton::Right, 10, 10), &mut fired);
    w.send_event(&subs, &press(MouseButton::Middle, 10, 10), &mut fired);
    w.send_event(&subs, &press(MouseButton::Other(4), 10, 10), &mut fired);
    assert_eq!(fired, Vec::<u64>::new());
}

#[test]
fn button_without_action_stays_silent() {
    let subs = Rebuilds::new();
    let mut w = Widget::Button(ButtonBuilder::new().width(80).height(20).build());
    let mut canvas = Canvas::new();
    w.draw(&subs, Context::new(0, 0, 300, 300), &mut canvas);

    let mut fired: Vec<u64> = Vec::new();
    w.send_event(&subs, &left_press(10, 10), &mut fired);
    assert_eq!(fired, Vec::<u64>::new());
}

#[test]
fn button_rectangle_is_stale_until_redrawn() {
    // The hit rectangle is refreshed only by a draw: before any draw the
    // recorded rectangle is still the empty box at the origin, and after a
    // draw at a new origin the old rectangle no longer applies.
    let subs = Rebuilds::new();
    let mut w = Widget::Button(ButtonBuilder::new().width(80).height(20).on_click(3).build());

    let mut fired: Vec<u64> = Vec::new();
    w.send_event(&subs, &left_press(10, 10), &mut fired);
    assert_eq!(fired, Vec::<u64>::new());

    let mut canvas = Canvas::new();
    w.draw(&subs, Context::new(100, 100, 300, 300), &mut canvas);
    let mut fired: Vec<u64> = Vec::new();
    w.send_event(&subs, &left_press(10, 10), &mut fired);
    assert_eq!(fired, Vec::<u64>::new());
    w.send_event(&subs, &left_press(110, 110), &mut fired);
    assert_eq!(fired, vec![3]);
}

#[test]
fn button_size_precedence_fixed_over_child_over_zero() {
    let subs = Rebuilds::new();
    let ctx = Context::new(0, 0, 300, 300);

    // No child, no fixed size: zero.
    let w = Widget::Button(ButtonBuilder::new().build());
    assert_eq!(w.get_size(&subs, ctx), (0, 0));

    // A child gives its intrinsic size.
    let w = Widget::Button(
        ButtonBuilder::new().child(Widget::Text(TextBuilder::new("Hi").build())).build(),
    );
    assert_eq!(w.get_size(&subs, ctx), (12, 12));

    // A fixed width or height always wins over the child.
    let w = Widget::Button(
        ButtonBuilder::new()
            .child(Widget::Text(TextBuilder::new("Hi").build()))
            .width(200)
            .build(),
    );
    assert_eq!(w.get_size(&subs, ctx), (200, 12));

    let w = Widget::Button(
        ButtonBuilder::new()
            .child(Widget::Text(TextBuilder::new("Hi").build()))
            .width(200)
            .height(50)
            .build(),
    );
    assert_eq!(w.get_size(&subs, ctx), (200, 50));
}

#[test]
fn button_draw_fills_then_draws_child_on_top() {
    let subs = Rebuilds::new();
    let mut w = Widget::Button(
        ButtonBuilder::new()
            .background(Color::black())
            .child(Widget::Text(TextBuilder::new("Go").color(Color::yellow()).build()))
            .build(),
    );
    let mut canvas = Canvas::new();
    w.draw(&subs, Context::new(0, 0, 300, 300), &mut canvas);
    assert_eq!(canvas.cmds.len(), 2);
    match canvas.cmd(0) {
        DrawCmd::FillRect { x, y, width, height, color } => {
            assert_eq!((*x, *y, *width, *height), (0, 0, 12, 12));
            assert_eq!(*color, Color::black());
        },
        other => panic!("unexpected primitive {:?}", other),
    }
    match canvas.cmd(1) {
        DrawCmd::Text { x, y, text, color, .. } => {
            assert_eq!((*x, *y), (0, 9));
            assert_eq!(text, "Go");
            assert_eq!(*color, Color::yellow());
        },
        other => panic!("unexpected primitive {:?}", other),
    }
}

#[test]
fn event_reaches_every_button_in_the_subtree() {
    // There is no stop-propagation signal: one press can hit several
    // overlapping buttons, and each reports its action in dispatch order.
    let subs = Rebuilds::new();
    let l = ListBuilder::new()
        .child(Widget::Button(ButtonBuilder::new().width(50).height(50).on_click(1).build()))
        .child(Widget::Button(ButtonBuilder::new().width(50).height(10).on_click(2).build()))
        .build();
    let mut w = Widget::List(l);
    let mut canvas = Canvas::new();
    w.draw(&subs, Context::new(0, 0, 100, 100), &mut canvas);

    // (10, 52) lies in the second button's rectangle [0,50]x[50,60] only;
    // (10, 50) lies in both (the edges are inclusive).
    let mut fired: Vec<u64> = Vec::new();
    w.send_event(&subs, &left_press(10, 52), &mut fired);
    assert_eq!(fired, vec![2]);

    let mut fired: Vec<u64> = Vec::new();
    w.send_event(&subs, &left_press(10, 50), &mut fired);
    assert_eq!(fired, vec![1, 2]);
}

#[test]
fn button_hit_rectangle_getter_reports_last_draw() {
    let subs = Rebuilds::new();
    let b = ButtonBuilder::new().width(80).height(20).build();
    assert_eq!(b.hit_rectangle(), (0, 0, 0, 0));

    let mut w = Widget::Button(ButtonBuilder::new().width(80).height(20).build());
    let mut canvas = Canvas::new();
    w.draw(&subs, Context::new(5, 6, 300, 300), &mut canvas);
    match &w {
        Widget::Button(b) => assert_eq!(b.hit_rectangle(), (5, 6, 85, 26)),
        _ => panic!("unexpected widget"),
    }
}
